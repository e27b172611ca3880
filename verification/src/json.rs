//! JSON documents, read through `serde_json`.
//!
//! The library reads two things of a document: whether the bytes are JSON at
//! all, and the string members of a top-level object.

use vstd::prelude::*;

verus! {

/// A JSON document, as `serde_json` holds it.
#[verifier::external_type_specification]
#[verifier::external_body]
pub struct ExJsonValue(serde_json::Value);

/// The string members of a JSON object, by name; empty for any other document.
pub uninterp spec fn json_strings(v: serde_json::Value) -> Map<Seq<char>, Seq<char>>;

/// What `serde_json::from_slice` makes of a byte sequence: the string members
/// of the document, or the text of its error.
pub uninterp spec fn json_document(body: Seq<u8>) -> Result<
    Map<Seq<char>, Seq<char>>,
    Seq<char>,
>;

/// The member of that name, where there is one.
pub open spec fn named(members: Map<Seq<char>, Seq<char>>, name: Seq<char>) -> Option<Seq<char>> {
    if members.contains_key(name) {
        Some(members[name])
    } else {
        None
    }
}

/// The member `name` of a document, when it is an object whose member of that
/// name is a string.
pub open spec fn member(v: serde_json::Value, name: Seq<char>) -> Option<Seq<char>> {
    named(json_strings(v), name)
}

/// Calls `serde_json::Value::get` and `serde_json::Value::as_str`.
///
/// `get` with a string finds a member of an object and nothing in any other
/// document; `as_str` yields the text of a string and nothing for any other
/// value. The two together look `name` up among the string members.
#[verifier::external_body]
pub(crate) fn string_member(v: &serde_json::Value, name: &str) -> (r: Option<String>)
    ensures
        match r {
            Some(s) => json_strings(*v).contains_key(name@) && json_strings(*v)[name@] == s@,
            None => !json_strings(*v).contains_key(name@),
        },
{
    v.get(name).and_then(|m| m.as_str()).map(|s| s.to_owned())
}

/// Calls `serde_json::from_slice`.
///
/// Whether the bytes are a JSON document, what its string members are and how
/// the error reads depend on the bytes alone.
#[verifier::external_body]
pub(crate) fn parse_json(body: &[u8]) -> (r: Result<serde_json::Value, String>)
    ensures
        match r {
            Ok(v) => json_document(body@) == Ok::<Map<Seq<char>, Seq<char>>, Seq<char>>(
                json_strings(v),
            ),
            Err(e) => json_document(body@) == Err::<Map<Seq<char>, Seq<char>>, Seq<char>>(e@),
        },
{
    serde_json::from_slice(body).map_err(|e| e.to_string())
}

} // verus!
