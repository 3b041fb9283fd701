//! Token JSON: the per-word records that every OCR engine's output is normalised to.
//!
//! A record is an object whose values are all strings. It is held as a list of key-value
//! pairs; records read from text come with their keys in ascending order.
use serde_json::Value;
use vstd::prelude::*;

verus! {

/// One token record: key-value pairs.
pub type TokenRecord = Vec<(String, String)>;

/// A record as pairs of character sequences.
pub open spec fn record_view(r: TokenRecord) -> Seq<(Seq<char>, Seq<char>)> {
    r@.map_values(|p: (String, String)| (p.0@, p.1@))
}

/// A list of records as sequences of pairs of character sequences.
pub open spec fn records_view(rs: Seq<TokenRecord>) -> Seq<Seq<(Seq<char>, Seq<char>)>> {
    rs.map_values(|r: TokenRecord| record_view(r))
}

/// Whether no key occurs twice in a record.
pub open spec fn keys_distinct(r: Seq<(Seq<char>, Seq<char>)>) -> bool {
    forall|i: int, j: int| 0 <= i < j < r.len() ==> #[trigger] r[i].0 != #[trigger] r[j].0
}

/// The records that `serde_json` reads from a token JSON text, keys in ascending order within
/// each record; `None` when the text is not a JSON array of objects with string values.
pub uninterp spec fn token_records_of(text: Seq<char>) -> Option<Seq<Seq<(Seq<char>, Seq<char>)>>>;

/// The JSON text that `serde_json` writes for a list of records: an array with one object per
/// record.
pub uninterp spec fn token_json_of(records: Seq<Seq<(Seq<char>, Seq<char>)>>) -> Seq<char>;

/// Relies on `serde_json::from_str`, read into maps from strings to strings: it fails exactly
/// when the text is not an array of such objects, and a map holds each key once and yields its
/// entries by ascending key.
#[verifier::external_body]
fn read_token_records(text: &str) -> (r: Result<Vec<TokenRecord>, serde_json::Error>)
    ensures
        match r {
            Ok(rows) => token_records_of(text@) == Some(records_view(rows@)),
            Err(_) => token_records_of(text@) is None,
        },
        r matches Ok(rows) ==> forall|k: int|
            0 <= k < rows@.len() ==> keys_distinct(#[trigger] record_view(rows@[k])),
{
    match serde_json::from_str::<Vec<std::collections::BTreeMap<String, String>>>(text) {
        Ok(rows) => Ok(rows.into_iter().map(|row| row.into_iter().collect()).collect()),
        Err(e) => Err(e),
    }
}

/// Relies on `serde_json::to_string`, each record written as a map from strings to strings:
/// with string keys and values it has no error path, and an empty list is written `[]`.
#[verifier::external_body]
pub(crate) fn write_token_records(records: &Vec<TokenRecord>) -> (r: Result<String, serde_json::Error>)
    ensures
        r is Ok,
        r matches Ok(s) ==> s@ == token_json_of(records_view(records@)),
        r matches Ok(s) ==> (records@.len() == 0 ==> s@ == "[]"@),
{
    let maps: Vec<std::collections::BTreeMap<&str, &str>> = records
        .iter()
        .map(|row| row.iter().map(|(k, v)| (k.as_str(), v.as_str())).collect())
        .collect();
    serde_json::to_string(&maps)
}

/// Reads the token JSON an engine produced. Text that is not a JSON array of objects with
/// string values yields no records.
pub fn parse_json_output(json_output: &str) -> (r: Vec<TokenRecord>)
    ensures
        records_view(r@) == match token_records_of(json_output@) {
            Some(rs) => rs,
            None => Seq::empty(),
        },
        forall|k: int| 0 <= k < r@.len() ==> keys_distinct(#[trigger] record_view(r@[k])),
{
    match read_token_records(json_output) {
        Ok(rows) => rows,
        Err(_) => {
            let empty: Vec<TokenRecord> = Vec::new();
            assert(records_view(empty@) =~= Seq::empty());
            empty
        },
    }
}

} // verus!
