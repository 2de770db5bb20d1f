//! Transactions reported by a simulation run, and their JSON form for the
//! client.
use vstd::prelude::*;
use vstd::string::*;
use crate::step::{json_quote, json_string_literal};
use crate::text::{chars_of, contains_chars, contains_seq, split_seq, split_str, trim_of, trim_str};

verus! {

/// The fields of a simulated transaction that the runtime reports.
pub struct ForgeTransactionDetails {
    pub from: String,
    pub to: String,
    pub gas: String,
    pub value: String,
    pub input: String,
    pub nonce: String,
    pub chain_id: String,
}

/// One transaction of the runtime's structured output.
pub struct ForgeTransaction {
    pub hash: Option<String>,
    pub transaction_type: String,
    pub contract_name: Option<String>,
    pub contract_address: String,
    pub function: String,
    pub arguments: Vec<String>,
    pub transaction: ForgeTransactionDetails,
}

/// The parts of the runtime's structured output file that the pipeline reads.
pub struct ForgeOutput {
    pub transactions: Vec<ForgeTransaction>,
    pub timestamp: u64,
    pub chain: u64,
    pub commit: Option<String>,
}

/// The transactions of a run, as a response body.
pub struct ForgeResponse {
    pub transactions: Vec<ForgeTransaction>,
}

/// What the client is told of one simulated transaction.
pub struct TransactionDetails {
    pub to: String,
    pub function: String,
    pub arguments: Vec<String>,
    pub value: String,
    pub input_data: String,
}

/// A transaction found in the runtime's text output.
pub struct Transaction {
    pub to: String,
    pub data: String,
    pub value: String,
}

pub open spec fn string_views(v: Seq<String>) -> Seq<Seq<char>> {
    v.map_values(|s: String| s@)
}

/// `items` separated by commas.
pub open spec fn joined(items: Seq<Seq<char>>) -> Seq<char>
    decreases items.len(),
{
    if items.len() == 0 {
        Seq::empty()
    } else if items.len() == 1 {
        items[0]
    } else {
        joined(items.drop_last()) + ","@ + items.last()
    }
}

/// A JSON array of the given element texts.
pub open spec fn json_array(items: Seq<Seq<char>>) -> Seq<char> {
    "["@ + joined(items) + "]"@
}

pub open spec fn json_strings(v: Seq<Seq<char>>) -> Seq<char> {
    json_array(v.map_values(|s: Seq<char>| json_string_literal(s)))
}

impl TransactionDetails {
    /// The JSON object the client receives for this transaction.
    pub open spec fn json_spec(&self) -> Seq<char> {
        "{\"to\":"@ + json_string_literal(self.to@) + ",\"function\":"@ + json_string_literal(
            self.function@,
        ) + ",\"arguments\":"@ + json_strings(string_views(self.arguments@))
            + ",\"value\":"@ + json_string_literal(self.value@) + ",\"input_data\":"@
            + json_string_literal(self.input_data@) + "}"@
    }

    pub fn to_json(&self) -> (r: String)
        ensures
            r@ == self.json_spec(),
    {
        let mut r = String::from_str("{\"to\":");
        r.append(json_quote(self.to.as_str()).as_str());
        r.append(",\"function\":");
        r.append(json_quote(self.function.as_str()).as_str());
        r.append(",\"arguments\":");
        r.append(strings_json(&self.arguments).as_str());
        r.append(",\"value\":");
        r.append(json_quote(self.value.as_str()).as_str());
        r.append(",\"input_data\":");
        r.append(json_quote(self.input_data.as_str()).as_str());
        r.append("}");
        r
    }
}

/// Joins element texts into a JSON array.
fn array_of(items: &Vec<String>) -> (r: String)
    ensures
        r@ == json_array(string_views(items@)),
{
    let ghost all = string_views(items@);
    let mut r = String::from_str("[");
    let mut k: usize = 0;
    while k < items.len()
        invariant
            k <= items@.len(),
            all == string_views(items@),
            r@ == "["@ + joined(all.take(k as int)),
        decreases items.len() - k,
    {
        let ghost before = r@;
        if k > 0 {
            r.append(",");
        }
        r.append(items[k].as_str());
        proof {
            let t = all.take(k as int + 1);
            assert(t.drop_last() =~= all.take(k as int));
            assert(t.last() == items@[k as int]@);
            if k == 0 {
                assert(joined(all.take(0)) =~= Seq::<char>::empty());
                assert(r@ =~= "["@ + joined(t));
            } else {
                assert(r@ =~= "["@ + joined(t));
            }
        }
        k = k + 1;
    }
    assert(all.take(k as int) =~= all);
    r.append("]");
    r
}

fn strings_json(v: &Vec<String>) -> (r: String)
    ensures
        r@ == json_strings(string_views(v@)),
{
    let mut quoted: Vec<String> = Vec::new();
    let mut k: usize = 0;
    while k < v.len()
        invariant
            k <= v@.len(),
            quoted@.len() == k,
            string_views(quoted@) == string_views(v@).take(k as int).map_values(
                |s: Seq<char>| json_string_literal(s),
            ),
        decreases v.len() - k,
    {
        let q = json_quote(v[k].as_str());
        let ghost before = quoted@;
        quoted.push(q);
        assert forall|i: int| 0 <= i <= k implies #[trigger] string_views(quoted@)[i]
            == string_views(v@).take(k as int + 1).map_values(|s: Seq<char>| json_string_literal(s))[i] by {
            if i < k {
                assert(quoted@[i] == before[i]);
                assert(string_views(before)[i] == string_views(v@).take(k as int).map_values(
                    |s: Seq<char>| json_string_literal(s))[i]);
            }
        }
        assert(string_views(quoted@) =~= string_views(v@).take(k as int + 1).map_values(
            |s: Seq<char>| json_string_literal(s),
        ));
        k = k + 1;
    }
    assert(string_views(v@).take(k as int) =~= string_views(v@));
    array_of(&quoted)
}

pub open spec fn details_json(v: Seq<TransactionDetails>) -> Seq<char> {
    json_array(v.map_values(|d: TransactionDetails| d.json_spec()))
}

/// The JSON array of transactions that a successful simulation reports.
pub fn transactions_json(v: &Vec<TransactionDetails>) -> (r: String)
    ensures
        r@ == details_json(v@),
{
    let mut parts: Vec<String> = Vec::new();
    let mut k: usize = 0;
    while k < v.len()
        invariant
            k <= v@.len(),
            parts@.len() == k,
            string_views(parts@) == v@.take(k as int).map_values(|d: TransactionDetails| d.json_spec()),
        decreases v.len() - k,
    {
        let j = v[k].to_json();
        let ghost before = parts@;
        parts.push(j);
        assert forall|i: int| 0 <= i <= k implies #[trigger] string_views(parts@)[i]
            == v@.take(k as int + 1).map_values(|d: TransactionDetails| d.json_spec())[i] by {
            if i < k {
                assert(parts@[i] == before[i]);
                assert(string_views(before)[i] == v@.take(k as int).map_values(
                    |d: TransactionDetails| d.json_spec())[i]);
            }
        }
        assert(string_views(parts@) =~= v@.take(k as int + 1).map_values(
            |d: TransactionDetails| d.json_spec(),
        ));
        k = k + 1;
    }
    assert(v@.take(k as int) =~= v@);
    array_of(&parts)
}

fn clone_strings(v: &Vec<String>) -> (r: Vec<String>)
    ensures
        string_views(r@) == string_views(v@),
{
    let mut r: Vec<String> = Vec::new();
    let mut k: usize = 0;
    while k < v.len()
        invariant
            k <= v@.len(),
            r@.len() == k,
            string_views(r@) == string_views(v@).take(k as int),
        decreases v.len() - k,
    {
        let c = v[k].clone();
        let ghost before = r@;
        r.push(c);
        assert forall|i: int| 0 <= i <= k implies #[trigger] string_views(r@)[i]
            == string_views(v@).take(k as int + 1)[i] by {
            if i < k {
                assert(r@[i] == before[i]);
                assert(string_views(before)[i] == string_views(v@).take(k as int)[i]);
            }
        }
        assert(string_views(r@) =~= string_views(v@).take(k as int + 1));
        k = k + 1;
    }
    assert(string_views(v@).take(k as int) =~= string_views(v@));
    r
}

impl ForgeTransaction {
    /// Whether `d` reports this transaction: its target is the contract
    /// address, and the value and input come from the transaction fields.
    pub open spec fn reported_by(&self, d: TransactionDetails) -> bool {
        &&& d.to@ == self.contract_address@
        &&& d.function@ == self.function@
        &&& string_views(d.arguments@) == string_views(self.arguments@)
        &&& d.value@ == self.transaction.value@
        &&& d.input_data@ == self.transaction.input@
    }

    pub fn details(&self) -> (r: TransactionDetails)
        ensures
            self.reported_by(r),
    {
        TransactionDetails {
            to: self.contract_address.clone(),
            function: self.function.clone(),
            arguments: clone_strings(&self.arguments),
            value: self.transaction.value.clone(),
            input_data: self.transaction.input.clone(),
        }
    }
}

impl ForgeOutput {
    /// What the client is told of each transaction of the run, in order.
    pub fn transaction_details(&self) -> (r: Vec<TransactionDetails>)
        ensures
            r@.len() == self.transactions@.len(),
            forall|i: int| 0 <= i < r@.len() ==> #[trigger] self.transactions@[i].reported_by(r@[i]),
    {
        let mut r: Vec<TransactionDetails> = Vec::new();
        let mut k: usize = 0;
        while k < self.transactions.len()
            invariant
                k <= self.transactions@.len(),
                r@.len() == k,
                forall|i: int| 0 <= i < k ==> #[trigger] self.transactions@[i].reported_by(r@[i]),
            decreases self.transactions.len() - k,
        {
            let d = self.transactions[k].details();
            r.push(d);
            k = k + 1;
        }
        r
    }
}

/// The text after the first occurrence of `marker` in `line`, up to its
/// next occurrence, trimmed; none where `marker` does not occur.
pub open spec fn field_after(line: Seq<char>, marker: Seq<char>) -> Option<Seq<char>> {
    let pieces = split_seq(line, marker);
    if pieces.len() >= 2 {
        Some(trim_of(pieces[1]))
    } else {
        None
    }
}

/// The transaction a line of text output reports, if any: a line that names
/// a contract call or a transaction, with both a `to:` and a `data:` field.
pub open spec fn transaction_of_line(line: Seq<char>) -> Option<(Seq<char>, Seq<char>)> {
    if contains_seq(line, "Contract call:"@) || contains_seq(line, "Transaction:"@) {
        match (field_after(line, "to:"@), field_after(line, "data:"@)) {
            (Some(to), Some(data)) => Some((to, data)),
            _ => None,
        }
    } else {
        None
    }
}

pub open spec fn transactions_of_text(output: Seq<char>) -> Seq<(Seq<char>, Seq<char>)> {
    split_seq(output, "\n"@).filter_map(|l: Seq<char>| transaction_of_line(l))
}

pub open spec fn transaction_view(t: Transaction) -> (Seq<char>, Seq<char>) {
    (t.to@, t.data@)
}

fn field_of(line: &str, marker: &str) -> (r: Option<String>)
    requires
        marker@.len() > 0,
    ensures
        match (r, field_after(line@, marker@)) {
            (Some(v), Some(expected)) => v@ == expected,
            (None, None) => true,
            _ => false,
        },
{
    let pieces = split_str(line, marker);
    if pieces.len() >= 2 {
        assert(pieces@.map_values(|x: String| x@)[1] == pieces@[1]@);
        Some(String::from_str(trim_str(pieces[1].as_str())))
    } else {
        None
    }
}

fn transaction_from_line(line: &str) -> (r: Option<Transaction>)
    ensures
        match (r, transaction_of_line(line@)) {
            (Some(t), Some(expected)) => transaction_view(t) == expected && t.value@ == "0"@,
            (None, None) => true,
            _ => false,
        },
{
    proof {
        reveal_strlit("to:");
        reveal_strlit("data:");
    }
    let cs = chars_of(line);
    if !contains_chars(cs.as_slice(), chars_of("Contract call:").as_slice())
        && !contains_chars(cs.as_slice(), chars_of("Transaction:").as_slice()) {
        return None;
    }
    match (field_of(line, "to:"), field_of(line, "data:")) {
        (Some(to), Some(data)) => Some(Transaction { to, data, value: String::from_str("0") }),
        _ => None,
    }
}

/// The transactions reported in the runtime's text output, one per line
/// that names a contract call or a transaction and carries `to:` and `data:`
/// fields. The value of each is zero.
pub fn parse_forge_output(output: &str) -> (r: Vec<Transaction>)
    ensures
        r@.map_values(|t: Transaction| transaction_view(t)) == transactions_of_text(output@),
        forall|i: int| 0 <= i < r@.len() ==> (#[trigger] r@[i]).value@ == "0"@,
{
    proof {
        reveal_strlit("\n");
    }
    let lines = split_str(output, "\n");
    let ghost all = lines@.map_values(|x: String| x@);
    let ghost f = |l: Seq<char>| transaction_of_line(l);
    let mut out: Vec<Transaction> = Vec::new();
    let mut k: usize = 0;
    proof {
        assert(all.take(0) =~= Seq::<Seq<char>>::empty());
        assert(out@.map_values(|t: Transaction| transaction_view(t)) =~= all.take(0).filter_map(f));
    }
    while k < lines.len()
        invariant
            k <= lines@.len(),
            all == lines@.map_values(|x: String| x@),
            f == (|l: Seq<char>| transaction_of_line(l)),
            out@.map_values(|t: Transaction| transaction_view(t)) == all.take(k as int).filter_map(f),
            forall|i: int| 0 <= i < out@.len() ==> (#[trigger] out@[i]).value@ == "0"@,
        decreases lines.len() - k,
    {
        proof {
            all.lemma_filter_map_take_succ(f, k as int);
        }
        match transaction_from_line(lines[k].as_str()) {
            Some(t) => {
                let ghost before = out@;
                let ghost tv = transaction_view(t);
                out.push(t);
                assert(out@.map_values(|t: Transaction| transaction_view(t)) =~= before.map_values(
                    |t: Transaction| transaction_view(t),
                ) + seq![tv]);
            },
            None => {
                assert(all.take(k as int).filter_map(f) + Seq::<(Seq<char>, Seq<char>)>::empty()
                    =~= all.take(k as int).filter_map(f));
            },
        }
        k = k + 1;
    }
    assert(all.take(k as int) =~= all);
    out
}

} // verus!
