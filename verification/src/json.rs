//! JSON text as serde_json writes and reads it. Nothing in this file is
//! proved: each function states what is taken from serde_json.

use crate::fields::{as_map, distinct_keys, pairs_text};
use vstd::prelude::*;

verus! {

/// What `serde_json::to_string` makes of `fields`: the compact JSON text of
/// the object that has one string member for each key, the members ordered
/// by key; `None` where it returns an error.
pub uninterp spec fn json_object_text(fields: Map<Seq<char>, Seq<char>>) -> Option<Seq<char>>;

/// What `serde_json::from_slice` reads from `body` as a JSON object whose
/// values are all strings (of a member that occurs twice the last one
/// counts), or `None` where `body` is no such object.
pub uninterp spec fn json_string_fields(body: Seq<u8>) -> Option<Map<Seq<char>, Seq<char>>>;

/// Calls `serde_json::to_string` on the entries, collected into a `BTreeMap`
/// of string slices. serde writes such a map as a JSON object, walking it in
/// the order of its keys, so the outcome depends on the entries as a map
/// only: it is `json_object_text`, with `None` for an error. Nothing is
/// claimed of when the call succeeds.
#[verifier::external_body]
pub(crate) fn write_object(entries: &Vec<(String, String)>) -> (text: Option<String>)
    requires
        distinct_keys(pairs_text(entries@)),
    ensures
        match text {
            Some(t) => json_object_text(as_map(pairs_text(entries@))) == Some(t@),
            None => json_object_text(as_map(pairs_text(entries@))) is None,
        },
{
    let members: std::collections::BTreeMap<&str, &str> = entries.iter().map(
        |entry| (entry.0.as_str(), entry.1.as_str()),
    ).collect();
    serde_json::to_string(&members).ok()
}

/// Calls `serde_json::from_slice` for a `HashMap<String, String>` and hands
/// out the map's pairs, in no stated order. A hash map holds no key twice,
/// and read as a map the pairs are `json_string_fields`; where serde_json
/// returns an error, the result is `None`.
#[verifier::external_body]
pub(crate) fn read_string_fields(body: &[u8]) -> (pairs: Option<Vec<(String, String)>>)
    ensures
        match pairs {
            Some(p) => distinct_keys(pairs_text(p@)) && json_string_fields(body@) == Some(
                as_map(pairs_text(p@)),
            ),
            None => json_string_fields(body@) is None,
        },
{
    serde_json::from_slice::<std::collections::HashMap<String, String>>(body).ok().map(
        |fields| fields.into_iter().collect(),
    )
}

} // verus!
