//! The header log: the request's headers gathered into a map, and that map
//! as a line of JSON for the log.

use crate::fields::{as_map, first_seen, lemma_first_seen_wins, lemma_lookup_first, lookup, Entry, TextMap};
use crate::json::json_object_text;
use vstd::prelude::*;
use vstd::utf8::{decode_utf8, valid_utf8};

verus! {

/// The text that `String::from_utf8_lossy` makes of `bytes`: the text they
/// encode, with U+FFFD in place of what is not UTF-8.
pub uninterp spec fn utf8_lossy_text(bytes: Seq<u8>) -> Seq<char>;

/// Calls `String::from_utf8_lossy` and takes the result as an owned string.
/// Its text is `utf8_lossy_text`; std documents that bytes which are valid
/// UTF-8 come back as the string they encode.
#[verifier::external_body]
fn decode_lossy(bytes: &[u8]) -> (text: String)
    ensures
        text@ == utf8_lossy_text(bytes@),
        valid_utf8(bytes@) ==> text@ == decode_utf8(bytes@),
{
    String::from_utf8_lossy(bytes).into_owned()
}

/// A header as it arrives: its name, and the bytes of its value.
pub type RawHeader = (String, Vec<u8>);

/// The headers as pairs of text: each name with its value decoded.
pub open spec fn decoded(raw: Seq<RawHeader>) -> Seq<Entry> {
    raw.map_values(|header: RawHeader| (header.0@, utf8_lossy_text(header.1@)))
}

/// Whether header `i` is the first of its name.
pub open spec fn first_of_name(raw: Seq<RawHeader>, i: int) -> bool {
    &&& 0 <= i < raw.len()
    &&& forall|j: int| 0 <= j < i ==> (#[trigger] raw[j]).0@ != raw[i].0@
}

/// What the header log yields for one request.
pub struct HeaderLog {
    /// The headers by name; of a name that came more than once, the first
    /// value.
    pub headers: TextMap,
    /// The map as a line of JSON for the log; `None` where it cannot be
    /// written so.
    pub line: Option<String>,
}

/// Gathers the headers into a map. The value of a header is decoded as
/// UTF-8, with U+FFFD for what is none; of headers with one name the first
/// stays.
pub fn collect_headers(raw: &Vec<RawHeader>) -> (headers: TextMap)
    ensures
        headers.entries() == first_seen(decoded(raw@)),
        headers@ == as_map(decoded(raw@)),
        forall|i: int|
            first_of_name(raw@, i) ==> headers@.dom().contains((#[trigger] raw@[i]).0@)
                && headers@[raw@[i].0@] == utf8_lossy_text(raw@[i].1@),
        forall|i: int|
            first_of_name(raw@, i) && valid_utf8((#[trigger] raw@[i]).1@) ==> headers@[raw@[i].0@]
                == decode_utf8(raw@[i].1@),
{
    let ghost all = decoded(raw@);
    let mut headers = TextMap::new();
    let mut i: usize = 0;
    while i < raw.len()
        invariant
            i <= raw@.len(),
            all == decoded(raw@),
            headers.entries() == first_seen(all.take(i as int)),
            forall|j: int|
                0 <= j < i && valid_utf8((#[trigger] raw@[j]).1@) ==> utf8_lossy_text(raw@[j].1@)
                    == decode_utf8(raw@[j].1@),
        decreases raw@.len() - i,
    {
        let name = raw[i].0.clone();
        let value = decode_lossy(raw[i].1.as_slice());
        proof {
            assert(all.take(i + 1).drop_last() =~= all.take(i as int));
        }
        headers.insert_if_absent(name, value);
        i += 1;
    }
    proof {
        assert(all.take(i as int) =~= all);
        assert forall|key: Seq<char>| lookup(first_seen(all), key) == lookup(all, key) by {
            lemma_first_seen_wins(all, key);
        }
        assert forall|k: int| first_of_name(raw@, k) implies headers@.dom().contains(
            (#[trigger] raw@[k]).0@,
        ) && headers@[raw@[k].0@] == utf8_lossy_text(raw@[k].1@) by {
            let key = raw@[k].0@;
            lemma_lookup_first(all, key);
            assert(all[k].0 == key);
        }
    }
    headers
}

/// The header log for one request: the map of its headers, and the map as a
/// line of JSON.
pub fn log_headers(raw: &Vec<RawHeader>) -> (log: HeaderLog)
    ensures
        log.headers.entries() == first_seen(decoded(raw@)),
        log.headers@ == as_map(decoded(raw@)),
        match log.line {
            Some(line) => json_object_text(log.headers@) == Some(line@),
            None => json_object_text(log.headers@) is None,
        },
{
    let headers = collect_headers(raw);
    let line = headers.json_line();
    HeaderLog { headers, line }
}

} // verus!
