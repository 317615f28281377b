//! JSON texts of the router's settings, from `serde_json`.

use vstd::prelude::*;
use std::collections::BTreeMap;
use serde::ser::Error as SerError;
use serde::Serializer;

verus! {

#[verifier::external_type_specification]
#[verifier::external_body]
pub struct ExJsonError(serde_json::Error);

/// The JSON object text that `serde_json`'s serializer writes for a map of
/// names to flags whose entries are `entries`, in this order.
pub uninterp spec fn json_flag_object(entries: Seq<(Seq<char>, bool)>) -> Seq<char>;

/// The list of strings that `serde_json::from_str::<Vec<String>>` reads
/// from `text`, when it accepts it.
pub uninterp spec fn json_string_list(text: Seq<char>) -> Option<Seq<Seq<char>>>;

/// The name/value pairs, in ascending order of name, that
/// `serde_json::from_str` reads from `text` into a map from strings to
/// strings, when it accepts it.
pub uninterp spec fn json_string_map(text: Seq<char>) -> Option<Seq<(Seq<char>, Seq<char>)>>;

/// The names and flags of `entries`, as mathematical values.
pub open spec fn flag_entries(entries: Seq<(String, bool)>) -> Seq<(Seq<char>, bool)> {
    entries.map_values(|e: (String, bool)| (e.0@, e.1))
}

/// `serde_json`'s serializer writing `entries` as a JSON object, in their
/// order (`Serializer::collect_map` into a byte buffer), as text. Claimed:
/// the text is the one named `json_flag_object` for these entries, and it
/// succeeds: string keys and boolean values always serialize, writing into
/// memory cannot fail, and `serde_json` writes only UTF-8.
#[verifier::external_body]
pub(crate) fn flags_to_json(entries: &Vec<(String, bool)>) -> (r: Result<String, serde_json::Error>)
    ensures
        r matches Ok(t) ==> t@ == json_flag_object(flag_entries(entries@)),
        r is Ok,
{
    let mut out: Vec<u8> = Vec::new();
    let mut ser = serde_json::Serializer::new(&mut out);
    (&mut ser).collect_map(entries.iter().map(|e| (&e.0, e.1)))?;
    String::from_utf8(out).map_err(serde_json::Error::custom)
}

/// `serde_json::from_str::<Vec<String>>(text)`, where it succeeds.
#[verifier::external_body]
pub(crate) fn parse_string_list(text: &str) -> (r: Option<Vec<String>>)
    ensures
        r.deep_view() == json_string_list(text@),
{
    serde_json::from_str::<Vec<String>>(text).ok()
}

/// `serde_json::from_str` of a map from strings to strings, where it
/// succeeds, as its pairs in ascending order of name.
#[verifier::external_body]
pub(crate) fn parse_string_map(text: &str) -> (r: Option<Vec<(String, String)>>)
    ensures
        r.deep_view() == json_string_map(text@),
{
    match serde_json::from_str::<BTreeMap<String, String>>(text) {
        Ok(map) => Some(map.into_iter().collect()),
        Err(_) => None,
    }
}

/// The `Display` text of a `serde_json` error. Nothing is claimed of it.
#[verifier::external_body]
pub(crate) fn json_error_text(e: &serde_json::Error) -> String {
    e.to_string()
}

} // verus!
