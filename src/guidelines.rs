//! Protocol guidelines: reference texts by protocol name, and the guidance
//! chosen for an intent from the classifier's answer.
use vstd::prelude::*;
use vstd::string::*;
use crate::registry::Registry;
use crate::explorer::{replace_all, replaced};
use crate::forge_output::string_views;
use crate::text::{chars_of, contains_chars, contains_seq, split_seq, split_str, trim_of, trim_str};

verus! {

/// A name for what `serde_json` makes of `s` read as a JSON array of
/// strings: the strings, or none where `s` is no such array.
pub uninterp spec fn json_string_array(s: Seq<char>) -> Option<Seq<Seq<char>>>;

/// Relies on `serde_json::from_str::<Vec<String>>`: the strings of a JSON
/// array of strings, or none where the text is not one.
#[verifier::external_body]
fn parse_string_array(s: &str) -> (r: Option<Vec<String>>)
    ensures
        match r {
            Some(v) => json_string_array(s@) == Some(v@.map_values(|x: String| x@)),
            None => json_string_array(s@) is None,
        },
{
    serde_json::from_str::<Vec<String>>(s).ok()
}

pub open spec fn opens_array(line: Seq<char>) -> bool {
    line.len() > 0 && line[0] == '['
}

/// The index of the first of `lines` from `i` on that, trimmed, opens a
/// JSON array, or -1.
pub open spec fn array_line_from(lines: Seq<Seq<char>>, i: int) -> int
    decreases lines.len() - i,
{
    if i < 0 || i >= lines.len() {
        -1
    } else if opens_array(trim_of(lines[i])) {
        i
    } else {
        array_line_from(lines, i + 1)
    }
}

/// The guideline texts of the known `names`, in order, each followed by a
/// blank line; unknown names add nothing.
pub open spec fn guidance_text(known: Map<Seq<char>, String>, names: Seq<Seq<char>>) -> Seq<char>
    decreases names.len(),
{
    if names.len() == 0 {
        Seq::empty()
    } else {
        guidance_text(known, names.drop_last()) + if known.contains_key(names.last()) {
            known[names.last()]@ + "\n\n"@
        } else {
            Seq::empty()
        }
    }
}

/// The guidance for a classifier's answer: the texts of the protocols that
/// the first line opening a JSON array names. Without such a line, or where
/// it does not parse, there is no guidance, which is not an error.
pub open spec fn guidance_for(known: Map<Seq<char>, String>, answer: Seq<char>) -> Seq<char> {
    let lines = split_seq(answer, "\n"@);
    let i = array_line_from(lines, 0);
    if i < 0 {
        Seq::empty()
    } else {
        match json_string_array(lines[i]) {
            Some(names) => guidance_text(known, names),
            None => Seq::empty(),
        }
    }
}

/// Reference texts by protocol name, read from a directory of markdown
/// files.
pub struct ProtocolGuidelinesProcessor {
    guidelines_dir: String,
    guidelines: Registry<String>,
}

impl ProtocolGuidelinesProcessor {
    /// The texts held, by protocol name.
    pub closed spec fn view(&self) -> Map<Seq<char>, String> {
        self.guidelines@
    }

    pub closed spec fn wf(&self) -> bool {
        self.guidelines.wf()
    }

    pub closed spec fn dir_spec(&self) -> Seq<char> {
        self.guidelines_dir@
    }

    /// The directory the guideline files are read from and written to.
    pub fn guidelines_dir(&self) -> (r: &str)
        ensures
            r@ == self.dir_spec(),
    {
        self.guidelines_dir.as_str()
    }

    /// A processor over `entries` of (protocol name, text); a later entry
    /// for a name replaces an earlier one.
    pub fn from_entries(guidelines_dir: String, entries: Vec<(String, String)>) -> (r: Self)
        ensures
            r.wf(),
            r.dir_spec() == guidelines_dir@,
            forall|k: Seq<char>| #[trigger] r@.contains_key(k) ==> exists|i: int|
                0 <= i < entries@.len() && entries@[i].0@ == k,
            forall|i: int| 0 <= i < entries@.len() ==> r@.contains_key(#[trigger] entries@[i].0@),
            forall|i: int|
                0 <= i < entries@.len() && (forall|j: int| i < j < entries@.len() ==> entries@[j].0@
                    != entries@[i].0@) ==> r@[#[trigger] entries@[i].0@] == entries@[i].1,
    {
        let mut guidelines: Registry<String> = Registry::new();
        let mut entries = entries;
        let ghost all = entries@;
        let n = entries.len();
        let mut taken: usize = 0;
        while entries.len() > 0
            invariant
                guidelines.wf(),
                all.len() == n,
                taken + entries@.len() == all.len(),
                entries@ == all.subrange(taken as int, all.len() as int),
                forall|k: Seq<char>| #[trigger] guidelines@.contains_key(k) ==> exists|i: int|
                    0 <= i < taken && all[i].0@ == k,
                forall|i: int| 0 <= i < taken ==> guidelines@.contains_key(#[trigger] all[i].0@),
                forall|i: int|
                    0 <= i < taken && (forall|j: int| i < j < taken ==> all[j].0@ != all[i].0@)
                        ==> guidelines@[#[trigger] all[i].0@] == all[i].1,
            decreases entries@.len(),
        {
            let (name, text) = entries.remove(0);
            assert(all[taken as int].0@ == name@);
            guidelines.insert(name, text);
            taken = taken + 1;
            assert(entries@ =~= all.subrange(taken as int, all.len() as int));
        }
        ProtocolGuidelinesProcessor { guidelines_dir, guidelines }
    }

    /// The names of the protocols that have guidelines.
    pub fn available_protocols(&self) -> (r: Vec<String>)
        requires
            self.wf(),
        ensures
            r@.len() == self@.len(),
            forall|i: int| 0 <= i < r@.len() ==> self@.contains_key(#[trigger] r@[i]@),
            forall|k: Seq<char>| #[trigger] self@.contains_key(k) ==> exists|i: int|
                0 <= i < r@.len() && r@[i]@ == k,
    {
        self.guidelines.keys()
    }

    /// The guideline text for one protocol, if it has one.
    pub fn guideline(&self, protocol: &str) -> (r: Option<&String>)
        requires
            self.wf(),
        ensures
            match r {
                Some(t) => self@.contains_key(protocol@) && *t == self@[protocol@],
                None => !self@.contains_key(protocol@),
            },
    {
        self.guidelines.lookup(protocol)
    }

    /// The guidance for an intent, from the classifier's answer.
    pub fn guidance_from_answer(&self, answer: &str) -> (r: String)
        requires
            self.wf(),
        ensures
            r@ == guidance_for(self@, answer@),
    {
        proof {
            reveal_strlit("\n");
        }
        let lines = split_str(answer, "\n");
        let ghost lv = lines@.map_values(|x: String| x@);
        let mut i: usize = 0;
        while i < lines.len()
            invariant
                self.wf(),
                i <= lines@.len(),
                lv == lines@.map_values(|x: String| x@),
                lv == split_seq(answer@, "\n"@),
                array_line_from(lv, 0) == array_line_from(lv, i as int),
            decreases lines.len() - i,
        {
            let t = trim_str(lines[i].as_str());
            assert(lv[i as int] == lines@[i as int]@);
            if t.unicode_len() > 0 && t.get_char(0) == '[' {
                assert(opens_array(trim_of(lv[i as int])));
                assert(array_line_from(lv, i as int) == i);
                return match parse_string_array(lines[i].as_str()) {
                    Some(names) => self.guidance_text_of(&names),
                    None => String::new(),
                };
            }
            i = i + 1;
        }
        String::new()
    }

    fn guidance_text_of(&self, names: &Vec<String>) -> (r: String)
        requires
            self.wf(),
        ensures
            r@ == guidance_text(self@, names@.map_values(|x: String| x@)),
    {
        let ghost nv = names@.map_values(|x: String| x@);
        let mut r = String::new();
        let mut k: usize = 0;
        while k < names.len()
            invariant
                self.wf(),
                k <= names@.len(),
                nv == names@.map_values(|x: String| x@),
                r@ == guidance_text(self@, nv.take(k as int)),
            decreases names.len() - k,
        {
            let ghost t = nv.take(k as int + 1);
            assert(t.drop_last() =~= nv.take(k as int));
            assert(t.last() == names@[k as int]@);
            match self.guidelines.lookup(names[k].as_str()) {
                Some(text) => {
                    r.append(text.as_str());
                    r.append("\n\n");
                },
                None => {},
            }
            k = k + 1;
        }
        assert(nv.take(k as int) =~= nv);
        r
    }

    /// The prompt that asks the classifier which of the known protocols an
    /// intent concerns.
    pub fn classification_prompt(&self, intent: &str) -> (r: String)
        requires
            self.wf(),
        ensures
            exists|names: Seq<String>| {
                &&& names.len() == self@.len()
                &&& forall|i: int| 0 <= i < names.len() ==> self@.contains_key(#[trigger] names[i]@)
                &&& forall|k: Seq<char>| #[trigger] self@.contains_key(k) ==> exists|i: int|
                    0 <= i < names.len() && names[i]@ == k
                &&& r@ == "Based on this user input, determine which protocols the user is trying to interact with. Return a concise list of the protocols in a json array. \n            Example output: [\"uniswap_v3\"]\n            The user input is: "@
                    + intent@ + "\nThe protocols are: "@ + joined_names(names.map_values(|x: String| x@))
            },
    {
        let names = self.available_protocols();
        let mut r = String::from_str(
            "Based on this user input, determine which protocols the user is trying to interact with. Return a concise list of the protocols in a json array. \n            Example output: [\"uniswap_v3\"]\n            The user input is: ",
        );
        r.append(intent);
        r.append("\nThe protocols are: ");
        let list = join_names(&names);
        r.append(list.as_str());
        r
    }
}

/// `names` separated by `", "`.
pub open spec fn joined_names(names: Seq<Seq<char>>) -> Seq<char>
    decreases names.len(),
{
    if names.len() == 0 {
        Seq::empty()
    } else if names.len() == 1 {
        names[0]
    } else {
        joined_names(names.drop_last()) + ", "@ + names.last()
    }
}

fn join_names(names: &Vec<String>) -> (r: String)
    ensures
        r@ == joined_names(names@.map_values(|x: String| x@)),
{
    let ghost nv = names@.map_values(|x: String| x@);
    let mut r = String::new();
    let mut k: usize = 0;
    while k < names.len()
        invariant
            k <= names@.len(),
            nv == names@.map_values(|x: String| x@),
            r@ == joined_names(nv.take(k as int)),
        decreases names.len() - k,
    {
        let ghost t = nv.take(k as int + 1);
        assert(t.drop_last() =~= nv.take(k as int));
        assert(t.last() == names@[k as int]@);
        if k > 0 {
            r.append(", ");
        } else {
            assert(nv.take(0) =~= Seq::<Seq<char>>::empty());
        }
        r.append(names[k].as_str());
        k = k + 1;
    }
    assert(nv.take(k as int) =~= nv);
    r
}

/// Where a documentation link's raw text is fetched from: a GitHub page
/// link is turned into its raw-content link.
pub open spec fn raw_doc_url_spec(link: Seq<char>) -> Seq<char> {
    if contains_seq(link, "github.com"@) {
        replaced(replaced(link, "github.com"@, "raw.githubusercontent.com"@), "/blob/"@, "/"@)
    } else {
        link
    }
}

pub fn raw_doc_url(link: &str) -> (r: String)
    ensures
        r@ == raw_doc_url_spec(link@),
{
    proof {
        reveal_strlit("github.com");
        reveal_strlit("/blob/");
    }
    let lc = chars_of(link);
    if contains_chars(lc.as_slice(), chars_of("github.com").as_slice()) {
        let a = replace_all(link, "github.com", "raw.githubusercontent.com");
        replace_all(a.as_str(), "/blob/", "/")
    } else {
        String::from_str(link)
    }
}

/// The documentation links of a comma-separated list, each trimmed.
pub fn doc_links_of(links: &str) -> (r: Vec<String>)
    ensures
        string_views(r@) == split_seq(links@, ","@).map_values(|p: Seq<char>| trim_of(p)),
{
    proof {
        reveal_strlit(",");
    }
    let pieces = split_str(links, ",");
    let ghost pv = pieces@.map_values(|x: String| x@);
    let mut r: Vec<String> = Vec::new();
    let mut k: usize = 0;
    while k < pieces.len()
        invariant
            k <= pieces@.len(),
            r@.len() == k,
            pv == pieces@.map_values(|x: String| x@),
            pv == split_seq(links@, ","@),
            string_views(r@) == pv.take(k as int).map_values(|p: Seq<char>| trim_of(p)),
        decreases pieces.len() - k,
    {
        let t = String::from_str(trim_str(pieces[k].as_str()));
        let ghost before = r@;
        r.push(t);
        assert forall|i: int| 0 <= i <= k implies #[trigger] string_views(r@)[i]
            == pv.take(k as int + 1).map_values(|p: Seq<char>| trim_of(p))[i] by {
            if i < k {
                assert(r@[i] == before[i]);
                assert(string_views(before)[i] == pv.take(k as int).map_values(
                    |p: Seq<char>| trim_of(p))[i]);
            } else {
                assert(pv[i] == pieces@[i]@);
            }
        }
        assert(string_views(r@) =~= pv.take(k as int + 1).map_values(|p: Seq<char>| trim_of(p)));
        k = k + 1;
    }
    assert(pv.take(k as int) =~= pv);
    r
}

} // verus!
