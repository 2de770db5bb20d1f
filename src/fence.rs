//! Fenced blocks in generated text: the program source taken from the first
//! block, and the components named by install directives in a shell block
//! that follows it.
use vstd::prelude::*;
use vstd::string::*;
use crate::text::{
    chars_of, contains_chars, contains_seq, split_seq, split_str, starts_with_chars, trim_of, trim_str,
};

verus! {

pub open spec fn fence() -> Seq<char> {
    "```"@
}

/// The pieces of `text` between fence delimiters: the odd-numbered ones are
/// block bodies. A last block with no closing delimiter runs to the end.
pub open spec fn fence_pieces(text: Seq<char>) -> Seq<Seq<char>> {
    split_seq(text, fence())
}

pub open spec fn has_prefix(s: Seq<char>, p: Seq<char>) -> bool {
    p.len() <= s.len() && s.subrange(0, p.len() as int) == p
}

/// A block body without its `solidity` info line, where it has one.
pub open spec fn without_language(body: Seq<char>) -> Seq<char> {
    if has_prefix(body, "solidity\n"@) {
        body.subrange(9, body.len() as int)
    } else {
        body
    }
}

/// Why no program source could be taken from generated text.
#[derive(PartialEq, Eq, Structural, Clone, Copy, Debug)]
pub enum ExtractError {
    /// No fence opens a block.
    NoSourceBlock,
    /// The first block holds nothing but whitespace.
    EmptySourceBlock,
}

impl ExtractError {
    pub open spec fn message_spec(&self) -> Seq<char> {
        match self {
            ExtractError::NoSourceBlock => "No Solidity code block found"@,
            ExtractError::EmptySourceBlock => "Solidity code block is empty"@,
        }
    }

    /// The diagnostic the client is shown.
    pub fn message(&self) -> (r: String)
        ensures
            r@ == self.message_spec(),
    {
        match self {
            ExtractError::NoSourceBlock => String::from_str("No Solidity code block found"),
            ExtractError::EmptySourceBlock => String::from_str("Solidity code block is empty"),
        }
    }
}

/// The program source of generated text: the first block, without its
/// `solidity` info line, trimmed.
pub open spec fn source_of(text: Seq<char>) -> Result<Seq<char>, ExtractError> {
    let pieces = fence_pieces(text);
    if pieces.len() < 2 {
        Err(ExtractError::NoSourceBlock)
    } else {
        let code = trim_of(without_language(pieces[1]));
        if code.len() == 0 {
            Err(ExtractError::EmptySourceBlock)
        } else {
            Ok(code)
        }
    }
}

fn strip_language(body: &str) -> (r: String)
    ensures
        r@ == without_language(body@),
{
    let cs = chars_of(body);
    let tag = chars_of("solidity\n");
    proof {
        reveal_strlit("solidity\n");
    }
    if starts_with_chars(cs.as_slice(), tag.as_slice()) {
        let n = body.unicode_len();
        String::from_str(body.substring_char(9, n))
    } else {
        String::from_str(body)
    }
}

/// Takes the program source out of generated text.
pub fn extract_source(text: &str) -> (r: Result<String, ExtractError>)
    ensures
        match (r, source_of(text@)) {
            (Ok(code), Ok(expected)) => code@ == expected,
            (Err(e), Err(expected)) => e == expected,
            _ => false,
        },
{
    proof {
        reveal_strlit("```");
    }
    let pieces = split_str(text, "```");
    if pieces.len() < 2 {
        return Err(ExtractError::NoSourceBlock);
    }
    let body = strip_language(pieces[1].as_str());
    let code = trim_str(body.as_str());
    if code.unicode_len() == 0 {
        Err(ExtractError::EmptySourceBlock)
    } else {
        Ok(String::from_str(code))
    }
}

/// The whitespace-separated words of a line.
pub open spec fn words(line: Seq<char>) -> Seq<Seq<char>> {
    split_seq(line, " "@).filter(|w: Seq<char>| w.len() > 0)
}

/// The component that an install directive line names: the third word of a
/// trimmed line whose first two words are `forge install`. A directive with
/// fewer words names nothing.
pub open spec fn directive_component(line: Seq<char>) -> Option<Seq<char>> {
    let w = words(trim_of(line));
    if w.len() >= 3 && w[0] == "forge"@ && w[1] == "install"@ {
        Some(w[2])
    } else {
        None
    }
}

/// A block that starts with a shell info string.
pub open spec fn is_shell_block(body: Seq<char>) -> bool {
    has_prefix(body, "bash"@) || has_prefix(body, "sh"@)
}

/// The components to install that generated text names: those of the
/// directive lines of its second block, in order, where that block is a
/// shell block holding an install directive; otherwise none.
pub open spec fn install_components_of(text: Seq<char>) -> Seq<Seq<char>> {
    let pieces = fence_pieces(text);
    if pieces.len() >= 4 && is_shell_block(pieces[3]) && contains_seq(pieces[3], "forge install"@) {
        split_seq(pieces[3], "\n"@).filter_map(|l: Seq<char>| directive_component(l))
    } else {
        seq![]
    }
}

fn words_of(line: &str) -> (r: Vec<String>)
    ensures
        r@.map_values(|x: String| x@) == words(line@),
{
    proof {
        reveal_strlit(" ");
    }
    let pieces = split_str(line, " ");
    let ghost all = pieces@.map_values(|x: String| x@);
    let ghost pred = |w: Seq<char>| w.len() > 0;
    let mut out: Vec<String> = Vec::new();
    let mut k: usize = 0;
    proof {
        reveal_with_fuel(Seq::filter, 1);
        assert(all.take(0) =~= Seq::<Seq<char>>::empty());
        assert(out@.map_values(|x: String| x@) =~= all.take(0).filter(pred));
    }
    while k < pieces.len()
        invariant
            k <= pieces@.len(),
            all == pieces@.map_values(|x: String| x@),
            pred == (|w: Seq<char>| w.len() > 0),
            out@.map_values(|x: String| x@) == all.take(k as int).filter(pred),
        decreases pieces.len() - k,
    {
        proof {
            assert(all.take(k as int + 1) =~= all.take(k as int).push(all[k as int]));
            all.take(k as int).lemma_filter_push(all[k as int], pred);
        }
        if pieces[k].unicode_len() > 0 {
            let ghost before = out@;
            out.push(pieces[k].clone());
            assert(out@.map_values(|x: String| x@) =~= before.map_values(|x: String| x@).push(
                all[k as int],
            ));
        }
        k = k + 1;
    }
    assert(all.take(k as int) =~= all);
    out
}

fn component_of(line: &str) -> (r: Option<String>)
    ensures
        match (r, directive_component(line@)) {
            (Some(c), Some(expected)) => c@ == expected,
            (None, None) => true,
            _ => false,
        },
{
    let w = words_of(trim_str(line));
    let ghost wv = w@.map_values(|x: String| x@);
    if w.len() >= 3 {
        assert(wv[0] == w@[0]@ && wv[1] == w@[1]@ && wv[2] == w@[2]@);
        if w[0] == String::from_str("forge") && w[1] == String::from_str("install") {
            return Some(w[2].clone());
        }
    }
    None
}

/// The components named by install directives in the shell block of
/// generated text, in the order they appear.
pub fn install_components(text: &str) -> (r: Vec<String>)
    ensures
        r@.map_values(|x: String| x@) == install_components_of(text@),
{
    proof {
        reveal_strlit("```");
        reveal_strlit("\n");
    }
    let pieces = split_str(text, "```");
    if pieces.len() < 4 {
        return Vec::new();
    }
    let block = pieces[3].as_str();
    let bc = chars_of(block);
    let shell = starts_with_chars(bc.as_slice(), chars_of("bash").as_slice())
        || starts_with_chars(bc.as_slice(), chars_of("sh").as_slice());
    if !shell || !contains_chars(bc.as_slice(), chars_of("forge install").as_slice()) {
        return Vec::new();
    }
    let lines = split_str(block, "\n");
    let ghost all = lines@.map_values(|x: String| x@);
    let ghost f = |l: Seq<char>| directive_component(l);
    let mut out: Vec<String> = Vec::new();
    let mut k: usize = 0;
    proof {
        assert(all.take(0) =~= Seq::<Seq<char>>::empty());
        assert(out@.map_values(|x: String| x@) =~= all.take(0).filter_map(f));
    }
    while k < lines.len()
        invariant
            k <= lines@.len(),
            all == lines@.map_values(|x: String| x@),
            f == (|l: Seq<char>| directive_component(l)),
            out@.map_values(|x: String| x@) == all.take(k as int).filter_map(f),
        decreases lines.len() - k,
    {
        proof {
            all.lemma_filter_map_take_succ(f, k as int);
        }
        match component_of(lines[k].as_str()) {
            Some(c) => {
                let ghost before = out@;
                out.push(c);
                assert(out@.map_values(|x: String| x@) =~= before.map_values(|x: String| x@)
                    + seq![c@]);
            },
            None => {
                assert(all.take(k as int).filter_map(f) + Seq::<Seq<char>>::empty()
                    =~= all.take(k as int).filter_map(f));
            },
        }
        k = k + 1;
    }
    assert(all.take(k as int) =~= all);
    out
}

} // verus!
