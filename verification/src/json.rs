//! The JSON texts of the history table: a method name as a JSON string, and
//! the headers as a JSON object of strings or as `null`.

use crate::headers::{distinct_names, entries_map, Header};
use std::collections::HashMap;
use vstd::prelude::*;

verus! {

/// The string that `serde_json::from_str` reads from a text as a `String`,
/// or `None` where it reads none.
pub uninterp spec fn json_string(text: Seq<char>) -> Option<Seq<char>>;

/// What `serde_json::from_str` reads from a text as an optional `HashMap`
/// from strings to strings: the mapping, or `Some(None)` where the text says
/// that there is none, or `None` where it reads neither.
pub uninterp spec fn json_string_map(text: Seq<char>) -> Option<
    Option<Map<Seq<char>, Seq<char>>>,
>;

/// A text that JSON writes between quotes as it is: no quote, no backslash
/// and no control character is in it.
pub open spec fn needs_no_escape(text: Seq<char>) -> bool {
    forall|i: int|
        0 <= i < text.len() ==> {
            let c = #[trigger] text[i];
            c != '"' && c != '\\' && c as u32 >= 0x20
        }
}

/// A text between two quotes.
pub open spec fn quoted(text: Seq<char>) -> Seq<char> {
    seq!['"'] + text + seq!['"']
}

/// `serde_json::to_string` on a string that needs no escape: it cannot fail,
/// it writes the string between two quotes, and `serde_json::from_str` reads
/// the string back from that.
#[verifier::external_body]
pub(crate) fn string_to_json(value: &str) -> (text: Option<String>)
    requires
        needs_no_escape(value@),
    ensures
        text matches Some(text) && text@ == quoted(value@) && json_string(text@) == Some(value@),
{
    serde_json::to_string(value).ok()
}

/// `serde_json::from_str` for a `String`. What it accepts is not spelled out
/// here: the result is `json_string` of the text.
#[verifier::external_body]
pub(crate) fn string_from_json(text: &str) -> (value: Option<String>)
    ensures
        match value {
            Some(value) => json_string(text@) == Some(value@),
            None => json_string(text@) is None,
        },
{
    serde_json::from_str::<String>(text).ok()
}

/// `serde_json::to_string` on an optional `HashMap` from strings to strings,
/// made of a list in which each name occurs once: it cannot fail, and
/// `serde_json::from_str` reads the same mapping back, or its absence. The
/// text itself depends on the order in which the map is walked, so nothing
/// more is said of it.
#[verifier::external_body]
pub(crate) fn headers_to_json(fields: Option<&Vec<Header>>) -> (text: Option<String>)
    requires
        fields matches Some(fields) ==> distinct_names(fields@),
    ensures
        text matches Some(text) && json_string_map(text@) == Some(
            match fields {
                Some(fields) => Some(entries_map(fields@)),
                None => None,
            },
        ),
{
    let map: Option<HashMap<&str, &str>> = fields.map(
        |fields| fields.iter().map(|field| (field.name.as_str(), field.value.as_str())).collect(),
    );
    serde_json::to_string(&map).ok()
}

/// `serde_json::from_str` for an optional `HashMap` from strings to strings,
/// its fields handed out as a list in which each name occurs once. What it
/// accepts is not spelled out here: the result is `json_string_map` of the
/// text.
#[verifier::external_body]
pub(crate) fn headers_from_json(text: &str) -> (fields: Option<Option<Vec<Header>>>)
    ensures
        match fields {
            Some(Some(fields)) => json_string_map(text@) == Some(Some(entries_map(fields@))),
            Some(None) => json_string_map(text@) == Some(
                None::<Map<Seq<char>, Seq<char>>>,
            ),
            None => json_string_map(text@) is None,
        },
{
    serde_json::from_str::<Option<HashMap<String, String>>>(text).ok().map(
        |map| map.map(|map| map.into_iter().map(|(name, value)| Header { name, value }).collect()),
    )
}

} // verus!
