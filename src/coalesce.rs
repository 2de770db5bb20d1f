//! Classification of a subprocess's standard output lines: bursts of
//! progress lines collapse to the last one of each burst.
use vstd::prelude::*;
use vstd::string::*;
use crate::text::{chars_of, contains_chars, contains_seq, trim_of, trim_str};

verus! {

/// A line that reports the progress of a fetch: it names one of the
/// counting, compressing, receiving or resolving phases.
pub open spec fn is_progress(line: Seq<char>) -> bool {
    contains_seq(line, "Counting objects:"@) || contains_seq(line, "Compressing objects:"@)
        || contains_seq(line, "Receiving objects:"@) || contains_seq(line, "Resolving deltas:"@)
}

pub open spec fn with_newline(s: Seq<char>) -> Seq<char> {
    s + "\n"@
}

/// What flushing a buffered progress line emits.
pub open spec fn flushed(pending: Option<Seq<char>>) -> Seq<Seq<char>> {
    match pending {
        Some(p) => seq![with_newline(p)],
        None => seq![],
    }
}

/// One line through the coalescer holding `pending`: the next buffered
/// line and the outputs emitted. A progress line replaces the buffer; any
/// other line releases the buffered progress line, which came first, and
/// is emitted after it.
pub open spec fn feed_spec(pending: Option<Seq<char>>, raw: Seq<char>) -> (Option<Seq<char>>, Seq<Seq<char>>) {
    let line = trim_of(raw);
    if is_progress(line) {
        (Some(line), seq![])
    } else {
        (None, flushed(pending) + seq![with_newline(line)])
    }
}

/// The outputs for a whole stream of raw lines, starting from `pending`, with
/// the buffer flushed when the stream ends.
pub open spec fn coalesce_from(pending: Option<Seq<char>>, lines: Seq<Seq<char>>) -> Seq<Seq<char>>
    decreases lines.len(),
{
    if lines.len() == 0 {
        flushed(pending)
    } else {
        let (next, out) = feed_spec(pending, lines[0]);
        out + coalesce_from(next, lines.drop_first())
    }
}

pub open spec fn coalesced(lines: Seq<Seq<char>>) -> Seq<Seq<char>> {
    coalesce_from(None, lines)
}

pub open spec fn views(v: Seq<String>) -> Seq<Seq<char>> {
    v.map_values(|s: String| s@)
}

/// Whether a (trimmed) output line reports fetch progress.
pub fn is_progress_line(line: &str) -> (r: bool)
    ensures
        r == is_progress(line@),
{
    let cs = chars_of(line);
    let a = chars_of("Counting objects:");
    let b = chars_of("Compressing objects:");
    let c = chars_of("Receiving objects:");
    let d = chars_of("Resolving deltas:");
    contains_chars(cs.as_slice(), a.as_slice()) || contains_chars(cs.as_slice(), b.as_slice())
        || contains_chars(cs.as_slice(), c.as_slice()) || contains_chars(cs.as_slice(), d.as_slice())
}

fn newline_terminated(s: &str) -> (r: String)
    ensures
        r@ == with_newline(s@),
{
    let mut r = String::from_str(s);
    r.append("\n");
    r
}

/// The coalescing state of one output stream: the latest progress line not
/// yet emitted.
pub struct LineCoalescer {
    pub pending: Option<String>,
}

impl LineCoalescer {
    pub open spec fn pending_view(&self) -> Option<Seq<char>> {
        match self.pending {
            Some(p) => Some(p@),
            None => None,
        }
    }

    pub fn new() -> (r: LineCoalescer)
        ensures
            r.pending_view() is None,
    {
        LineCoalescer { pending: None }
    }

    /// Takes one raw line and returns the outputs it releases, each ending
    /// in a newline.
    pub fn feed(&mut self, raw: &str) -> (out: Vec<String>)
        ensures
            (final(self).pending_view(), views(out@)) == feed_spec(old(self).pending_view(), raw@),
    {
        let line = trim_str(raw);
        if is_progress_line(line) {
            self.pending = Some(String::from_str(line));
            let out: Vec<String> = Vec::new();
            assert(views(out@) =~= seq![]);
            out
        } else {
            let mut out: Vec<String> = Vec::new();
            let ghost before = self.pending_view();
            match self.pending.take() {
                Some(p) => {
                    out.push(newline_terminated(p.as_str()));
                },
                None => {},
            }
            out.push(newline_terminated(line));
            assert(views(out@) =~= flushed(before) + seq![with_newline(line@)]);
            out
        }
    }

    /// Ends the stream: releases the buffered progress line, if any.
    pub fn finish(&mut self) -> (out: Vec<String>)
        ensures
            views(out@) == flushed(old(self).pending_view()),
            final(self).pending_view() is None,
    {
        let mut out: Vec<String> = Vec::new();
        let ghost before = self.pending_view();
        match self.pending.take() {
            Some(p) => {
                out.push(newline_terminated(p.as_str()));
            },
            None => {},
        }
        assert(views(out@) =~= flushed(before));
        out
    }
}

/// The outputs for a whole stream of raw lines, as a coalescer fed line by
/// line and then finished emits them.
pub fn coalesce_lines(lines: &Vec<String>) -> (out: Vec<String>)
    ensures
        views(out@) == coalesced(views(lines@)),
{
    let mut c = LineCoalescer::new();
    let mut out: Vec<String> = Vec::new();
    let mut i: usize = 0;
    proof {
        assert(views(lines@).subrange(0, lines.len() as int) =~= views(lines@));
        assert(views(out@) + coalesced(views(lines@)) =~= coalesced(views(lines@)));
    }
    while i < lines.len()
        invariant
            i <= lines.len(),
            views(out@) + coalesce_from(c.pending_view(), views(lines@).subrange(i as int, lines.len() as int))
                == coalesced(views(lines@)),
        decreases lines.len() - i,
    {
        let ghost rest = views(lines@).subrange(i as int, lines.len() as int);
        assert(rest.drop_first() =~= views(lines@).subrange(i + 1, lines.len() as int));
        let got = c.feed(lines[i].as_str());
        proof {
            assert(views(out@ + got@) =~= views(out@) + views(got@));
        }
        out.append(&mut got.clone());
        i = i + 1;
    }
    let tail = c.finish();
    proof {
        assert(views(lines@).subrange(i as int, lines.len() as int) =~= seq![]);
        assert(views(out@ + tail@) =~= views(out@) + views(tail@));
    }
    let mut tail = tail;
    out.append(&mut tail);
    out
}

/// A burst of progress lines followed by one other line yields exactly two
/// outputs, in the order their lines came: the last progress line of the
/// burst, then that line.
pub proof fn lemma_burst_coalesces(burst: Seq<Seq<char>>, last: Seq<char>)
    requires
        burst.len() > 0,
        forall|i: int| 0 <= i < burst.len() ==> is_progress(#[trigger] trim_of(burst[i])),
        !is_progress(trim_of(last)),
    ensures
        coalesced(burst.push(last)) == seq![
            with_newline(trim_of(burst.last())),
            with_newline(trim_of(last)),
        ],
{
    lemma_progress_run(None, burst, last);
}

proof fn lemma_progress_run(pending: Option<Seq<char>>, burst: Seq<Seq<char>>, last: Seq<char>)
    requires
        burst.len() > 0,
        forall|i: int| 0 <= i < burst.len() ==> is_progress(#[trigger] trim_of(burst[i])),
        !is_progress(trim_of(last)),
    ensures
        coalesce_from(pending, burst.push(last)) == seq![
            with_newline(trim_of(burst.last())),
            with_newline(trim_of(last)),
        ],
    decreases burst.len(),
{
    let all = burst.push(last);
    let line0 = trim_of(burst[0]);
    assert(is_progress(trim_of(burst[0])));
    assert(all[0] == burst[0]);
    if burst.len() == 1 {
        assert(all.drop_first() =~= seq![last]);
        let rest = seq![last];
        assert(rest.drop_first() =~= Seq::<Seq<char>>::empty());
        assert(coalesce_from(Some(line0), rest) =~= flushed(Some(line0)) + seq![with_newline(trim_of(last))]
            + coalesce_from(None, Seq::<Seq<char>>::empty()));
    } else {
        let tail = burst.drop_first();
        assert(all.drop_first() =~= tail.push(last));
        assert forall|i: int| 0 <= i < tail.len() implies is_progress(#[trigger] trim_of(tail[i])) by {
            assert(tail[i] == burst[i + 1]);
        }
        lemma_progress_run(Some(line0), tail, last);
        assert(tail.last() == burst.last());
    }
}

} // verus!
