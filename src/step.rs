//! Step records, the unit of progress sent to the client, and the frames
//! that carry them over the event stream.
use vstd::prelude::*;
use vstd::string::*;

verus! {

/// A unit of progress: a title from a fixed set and free-form output text.
pub struct ForgeStep {
    pub title: String,
    pub output: String,
}

/// How `serde_json` writes one character inside a string literal: quote,
/// backslash and the named control characters by their short escapes, other
/// characters below 0x20 as `\u00XX` in lower-case hex, anything else as
/// itself.
pub open spec fn json_escaped_char(c: char) -> Seq<char> {
    let u = c as u32;
    if c == '"' {
        "\\\""@
    } else if c == '\\' {
        "\\\\"@
    } else if u == 0x08 {
        "\\b"@
    } else if u == 0x09 {
        "\\t"@
    } else if u == 0x0A {
        "\\n"@
    } else if u == 0x0C {
        "\\f"@
    } else if u == 0x0D {
        "\\r"@
    } else if u < 0x20 {
        "\\u00"@ + seq!["0123456789abcdef"@[(u / 16) as int], "0123456789abcdef"@[(u % 16) as int]]
    } else {
        seq![c]
    }
}

pub open spec fn json_escaped(s: Seq<char>) -> Seq<char>
    decreases s.len(),
{
    if s.len() == 0 {
        Seq::empty()
    } else {
        json_escaped(s.drop_last()) + json_escaped_char(s.last())
    }
}

/// The JSON string literal for `s`: its characters escaped, in quotes.
pub open spec fn json_string_literal(s: Seq<char>) -> Seq<char> {
    "\""@ + json_escaped(s) + "\""@
}

/// Relies on `serde_json::to_string` on a `str`, which writes the string
/// literal character by character as `json_escaped_char` states.
/// Serialising a string slice into a buffer has no failing case.
#[verifier::external_body]
pub(crate) fn json_quote(s: &str) -> (r: String)
    ensures
        r@ == json_string_literal(s@),
{
    match serde_json::to_string(s) {
        Ok(r) => r,
        Err(_) => String::new(),
    }
}

pub open spec fn title_session() -> Seq<char> { "Session"@ }
pub open spec fn title_error() -> Seq<char> { "Error"@ }
pub open spec fn title_initializing() -> Seq<char> { "Initializing Forge"@ }
pub open spec fn title_generating() -> Seq<char> { "Generating Code"@ }
pub open spec fn title_writing() -> Seq<char> { "Writing Code"@ }
pub open spec fn title_directory() -> Seq<char> { "Directory Contents"@ }
pub open spec fn title_simulating() -> Seq<char> { "Simulating Transactions"@ }
pub open spec fn title_fixing() -> Seq<char> { "Fixing"@ }
pub open spec fn title_installing() -> Seq<char> { "Installing Dependencies"@ }

/// The JSON object `{"title":..,"output":..}` for a record with these fields.
pub open spec fn step_json(title: Seq<char>, output: Seq<char>) -> Seq<char> {
    "{\"title\":"@ + json_string_literal(title) + ",\"output\":"@ + json_string_literal(output)
        + "}"@
}

impl ForgeStep {
    pub fn new(title: &str, output: &str) -> (r: ForgeStep)
        ensures
            r.title@ == title@,
            r.output@ == output@,
    {
        ForgeStep { title: String::from_str(title), output: String::from_str(output) }
    }

    /// Whether this record reports a failure.
    pub fn is_error(&self) -> (r: bool)
        ensures
            r == (self.title@ == title_error()),
    {
        self.title == String::from_str("Error")
    }

    /// The record as the JSON object that the client receives.
    pub fn to_json(&self) -> (r: String)
        ensures
            r@ == step_json(self.title@, self.output@),
    {
        let mut r = String::from_str("{\"title\":");
        let t = json_quote(self.title.as_str());
        r.append(t.as_str());
        r.append(",\"output\":");
        let o = json_quote(self.output.as_str());
        r.append(o.as_str());
        r.append("}");
        r
    }
}

/// A frame of the event stream: an optional event name and its data.
pub struct StreamEvent {
    pub event: Option<String>,
    pub data: String,
}

/// The frame that follows the last record, so that the client can tell a
/// clean end from a dropped connection.
pub fn close_event() -> (r: StreamEvent)
    ensures
        r.event is Some && r.event->0@ == "close"@,
        r.data@ == "stream complete"@,
{
    StreamEvent { event: Some(String::from_str("close")), data: String::from_str("stream complete") }
}

/// The frame for what the consumer received next: a record becomes an unnamed
/// data frame holding its JSON; the end of the channel becomes the close frame.
pub fn stream_event(next: Option<&ForgeStep>) -> (r: StreamEvent)
    ensures
        match next {
            Some(step) => r.event is None && r.data@ == step_json(step.title@, step.output@),
            None => r.event is Some && r.event->0@ == "close"@ && r.data@ == "stream complete"@,
        },
{
    match next {
        Some(step) => StreamEvent { event: None, data: step.to_json() },
        None => close_event(),
    }
}

} // verus!
