//! The source file of a verified contract, taken from the standard-JSON
//! payload that a block explorer returns.
use vstd::prelude::*;
use vstd::string::*;
use crate::models::ContractInfo;
use crate::text::{chars_of, split_seq, split_str, starts_with_chars, trim_of, trim_str};

verus! {

/// A name for what `serde_json` finds in `text` read as a JSON value: none
/// where it is not JSON; else the entries of its `sources` object, each a
/// path with the string under its `content` key, if there is one; or
/// `Err(false)` where there is no `sources` key, `Err(true)` where its value
/// is not an object.
pub uninterp spec fn json_source_entries(text: Seq<char>) -> Option<Result<Seq<(Seq<char>, Option<Seq<char>>)>, bool>>;

pub open spec fn entry_views(v: Seq<(String, Option<String>)>) -> Seq<(Seq<char>, Option<Seq<char>>)> {
    v.map_values(|e: (String, Option<String>)| (e.0@, match e.1 {
        Some(c) => Some(c@),
        None => None,
    }))
}

/// Relies on `serde_json::from_str::<serde_json::Value>` and `Value::get`:
/// the entries of the `sources` object of a JSON text, in the map's order,
/// each with the string under its `content` key.
#[verifier::external_body]
fn source_entries(text: &str) -> (r: Result<Result<Vec<(String, Option<String>)>, bool>, String>)
    ensures
        match r {
            Err(_) => json_source_entries(text@) is None,
            Ok(Err(b)) => json_source_entries(text@) == Some(Err::<Seq<(Seq<char>, Option<Seq<char>>)>, bool>(b)),
            Ok(Ok(v)) => json_source_entries(text@) == Some(Ok::<Seq<(Seq<char>, Option<Seq<char>>)>, bool>(entry_views(v@))),
        },
{
    let value: serde_json::Value = match serde_json::from_str(text) { Ok(v) => v, Err(e) => return Err(e.to_string()) };
    let sources = match value.get("sources") {
        Some(serde_json::Value::Object(m)) => m,
        Some(_) => return Ok(Err(true)),
        None => return Ok(Err(false)),
    };
    let mut entries = Vec::new();
    for (path, entry) in sources {
        let content = match entry.get("content") { Some(serde_json::Value::String(c)) => Some(c.clone()), _ => None };
        entries.push((path.clone(), content));
    }
    Ok(Ok(entries))
}

/// `s` without every leading copy of `p`.
pub open spec fn strip_leading(s: Seq<char>, p: Seq<char>) -> Seq<char>
    decreases s.len(),
{
    if p.len() > 0 && p.len() <= s.len() && s.subrange(0, p.len() as int) == p {
        strip_leading(s.subrange(p.len() as int, s.len() as int), p)
    } else {
        s
    }
}

/// `s` without every trailing copy of `p`.
pub open spec fn strip_trailing(s: Seq<char>, p: Seq<char>) -> Seq<char>
    decreases s.len(),
{
    if p.len() > 0 && p.len() <= s.len() && s.subrange(s.len() - p.len(), s.len() as int) == p {
        strip_trailing(s.subrange(0, s.len() - p.len()), p)
    } else {
        s
    }
}

/// The explorer's source field made into a JSON object text: doubled
/// braces stripped, whitespace trimmed, one pair of braces put back.
pub open spec fn wrapped_source(s: Seq<char>) -> Seq<char> {
    "{"@ + trim_of(strip_trailing(strip_leading(s, "{{"@), "}}"@)) + "}"@
}

/// The pieces of `s` between occurrences of `from`, joined with `to`: what
/// `str::replace` returns.
pub open spec fn replaced(s: Seq<char>, from: Seq<char>, to: Seq<char>) -> Seq<char> {
    joined_with(split_seq(s, from), to)
}

pub open spec fn joined_with(pieces: Seq<Seq<char>>, sep: Seq<char>) -> Seq<char>
    decreases pieces.len(),
{
    if pieces.len() == 0 {
        Seq::empty()
    } else if pieces.len() == 1 {
        pieces[0]
    } else {
        joined_with(pieces.drop_last(), sep) + sep + pieces.last()
    }
}

/// Source text with its escaped line breaks, quotes and backslashes undone,
/// in that order.
pub open spec fn unescaped(s: Seq<char>) -> Seq<char> {
    replaced(replaced(replaced(s, "\\r\\n"@, "\n"@), "\\\""@, "\""@), "\\\\"@, "\\"@)
}

pub open spec fn has_suffix(s: Seq<char>, p: Seq<char>) -> bool {
    p.len() <= s.len() && s.subrange(s.len() - p.len(), s.len() as int) == p
}

/// The index of the first entry from `i` on whose path names the contract's
/// file, or -1.
pub open spec fn contract_entry_from(entries: Seq<(Seq<char>, Option<Seq<char>>)>, file: Seq<char>, i: int) -> int
    decreases entries.len() - i,
{
    if i < 0 || i >= entries.len() {
        -1
    } else if has_suffix(entries[i].0, file) {
        i
    } else {
        contract_entry_from(entries, file, i + 1)
    }
}

/// What the explorer's payload yields for a contract: the unescaped content
/// of the first source file named after it, or an error naming what was
/// missing. A payload that is not JSON gives an error with the parser's
/// diagnostic, which is not stated here.
pub open spec fn contract_source_of(source_code: Seq<char>, contract_name: Seq<char>) -> Option<Result<Seq<char>, Seq<char>>> {
    match json_source_entries(wrapped_source(source_code)) {
        None => None,
        Some(Err(false)) => Some(Err("No sources found"@)),
        Some(Err(true)) => Some(Err("Sources is not an object"@)),
        Some(Ok(entries)) => {
            let i = contract_entry_from(entries, contract_name + ".sol"@, 0);
            if i < 0 {
                Some(Err("Contract source not found"@))
            } else {
                match entries[i].1 {
                    Some(c) => Some(Ok(unescaped(c))),
                    None => Some(Err("No content found"@)),
                }
            }
        },
    }
}

fn strip_leading_exec(s: &str, p: &str) -> (r: String)
    requires
        p@.len() > 0,
    ensures
        r@ == strip_leading(s@, p@),
{
    let pc = chars_of(p);
    let mut cur = String::from_str(s);
    loop
        invariant
            p@.len() > 0,
            pc@ == p@,
            strip_leading(cur@, p@) == strip_leading(s@, p@),
        decreases cur@.len(),
    {
        let cc = chars_of(cur.as_str());
        if starts_with_chars(cc.as_slice(), pc.as_slice()) {
            let n = cur.unicode_len();
            let rest = String::from_str(cur.as_str().substring_char(pc.len(), n));
            cur = rest;
        } else {
            return cur;
        }
    }
}

fn strip_trailing_exec(s: &str, p: &str) -> (r: String)
    requires
        p@.len() > 0,
    ensures
        r@ == strip_trailing(s@, p@),
{
    let pc = chars_of(p);
    let mut cur = String::from_str(s);
    loop
        invariant
            p@.len() > 0,
            pc@ == p@,
            strip_trailing(cur@, p@) == strip_trailing(s@, p@),
        decreases cur@.len(),
    {
        let cc = chars_of(cur.as_str());
        let n = cc.len();
        if pc.len() <= n && ends_with_chars(cc.as_slice(), pc.as_slice()) {
            let rest = String::from_str(cur.as_str().substring_char(0, n - pc.len()));
            cur = rest;
        } else {
            return cur;
        }
    }
}

fn ends_with_chars(s: &[char], p: &[char]) -> (r: bool)
    ensures
        r == has_suffix(s@, p@),
{
    if p.len() > s.len() {
        return false;
    }
    crate::text::matches_at(s, p, s.len() - p.len())
}

/// The explorer's source field as a JSON object text.
pub fn wrap_source(source_code: &str) -> (r: String)
    ensures
        r@ == wrapped_source(source_code@),
{
    proof {
        reveal_strlit("{{");
        reveal_strlit("}}");
    }
    let a = strip_leading_exec(source_code, "{{");
    let b = strip_trailing_exec(a.as_str(), "}}");
    let t = trim_str(b.as_str());
    let mut r = String::from_str("{");
    r.append(t);
    r.append("}");
    r
}

/// Every occurrence of `from` in `s` replaced by `to`.
pub fn replace_all(s: &str, from: &str, to: &str) -> (r: String)
    requires
        from@.len() > 0,
    ensures
        r@ == replaced(s@, from@, to@),
{
    let pieces = split_str(s, from);
    let ghost pv = pieces@.map_values(|x: String| x@);
    let mut r = String::new();
    let mut k: usize = 0;
    while k < pieces.len()
        invariant
            k <= pieces@.len(),
            pv == pieces@.map_values(|x: String| x@),
            r@ == joined_with(pv.take(k as int), to@),
        decreases pieces.len() - k,
    {
        let ghost t = pv.take(k as int + 1);
        assert(t.drop_last() =~= pv.take(k as int));
        assert(t.last() == pieces@[k as int]@);
        if k > 0 {
            r.append(to);
        } else {
            assert(pv.take(0) =~= Seq::<Seq<char>>::empty());
        }
        r.append(pieces[k].as_str());
        k = k + 1;
    }
    assert(pv.take(k as int) =~= pv);
    r
}

/// Undoes the escaping of line breaks, quotes and backslashes.
pub fn unescape_source(s: &str) -> (r: String)
    ensures
        r@ == unescaped(s@),
{
    proof {
        reveal_strlit("\\r\\n");
        reveal_strlit("\\\"");
        reveal_strlit("\\\\");
    }
    let a = replace_all(s, "\\r\\n", "\n");
    let b = replace_all(a.as_str(), "\\\"", "\"");
    replace_all(b.as_str(), "\\\\", "\\")
}

/// The source of the contract that `contract_info` names, from the
/// explorer's standard-JSON payload.
pub fn extract_contract_source(contract_info: &ContractInfo) -> (r: Result<String, String>)
    ensures
        match contract_source_of(contract_info.source_code@, contract_info.contract_name@) {
            None => r is Err,
            Some(Ok(src)) => r is Ok && r->Ok_0@ == src,
            Some(Err(m)) => r is Err && r->Err_0@ == m,
        },
{
    let wrapped = wrap_source(contract_info.source_code.as_str());
    let entries = match source_entries(wrapped.as_str()) {
        Err(e) => {
            let mut m = String::from_str("Failed to parse JSON: ");
            m.append(e.as_str());
            return Err(m);
        },
        Ok(Err(false)) => return Err(String::from_str("No sources found")),
        Ok(Err(true)) => return Err(String::from_str("Sources is not an object")),
        Ok(Ok(entries)) => entries,
    };
    let mut file = contract_info.contract_name.clone();
    file.append(".sol");
    let fc = chars_of(file.as_str());
    let ghost ev = entry_views(entries@);
    let mut i: usize = 0;
    while i < entries.len()
        invariant
            i <= entries@.len(),
            ev == entry_views(entries@),
            json_source_entries(wrapped_source(contract_info.source_code@)) == Some(Ok::<Seq<(Seq<char>, Option<Seq<char>>)>, bool>(ev)),
            fc@ == contract_info.contract_name@ + ".sol"@,
            contract_entry_from(ev, fc@, 0) == contract_entry_from(ev, fc@, i as int),
        decreases entries.len() - i,
    {
        let pc = chars_of(entries[i].0.as_str());
        assert(ev[i as int].0 == entries@[i as int].0@);
        assert(ev[i as int].1 == match entries@[i as int].1 {
            Some(c) => Some(c@),
            None => None,
        });
        if ends_with_chars(pc.as_slice(), fc.as_slice()) {
            assert(contract_entry_from(ev, fc@, i as int) == i);
            return match &entries[i].1 {
                Some(c) => Ok(unescape_source(c.as_str())),
                None => Err(String::from_str("No content found")),
            };
        }
        i = i + 1;
    }
    Err(String::from_str("Contract source not found"))
}

} // verus!
