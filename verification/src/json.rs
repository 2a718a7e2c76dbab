//! JSON documents, as far as the discovery endpoints need them: the string
//! members of the top-level object. Parsing is left to `serde_json`.

use vstd::prelude::*;

verus! {

#[verifier::external_type_specification]
#[verifier::external_body]
pub struct ExValue(serde_json::Value);

#[verifier::external_type_specification]
#[verifier::external_body]
pub struct ExJsonError(serde_json::Error);

/// The string members of a JSON value: for each key of the object whose
/// member is a string, that string. A value that is not an object has none.
pub uninterp spec fn string_members(doc: serde_json::Value) -> Map<Seq<char>, Seq<char>>;

/// The string members of the document that `serde_json::from_slice` reads
/// from these bytes, or nothing where it reports an error.
pub uninterp spec fn parsed_members(bytes: Seq<u8>) -> Option<Map<Seq<char>, Seq<char>>>;

/// What `String::from_utf8_lossy` makes of these bytes.
pub uninterp spec fn lossy_text(bytes: Seq<u8>) -> Seq<char>;

/// `serde_json::from_slice` at the type `Value`: the document that the bytes
/// hold, or the parser's error. Nothing is claimed about which bytes parse,
/// only that the same bytes always give the same answer.
#[verifier::external_body]
pub(crate) fn parse_document(bytes: &[u8]) -> (r: Result<serde_json::Value, serde_json::Error>)
    ensures
        match r {
            Ok(doc) => parsed_members(bytes@) == Some(string_members(doc)),
            Err(_) => parsed_members(bytes@) is None,
        },
{
    serde_json::from_slice::<serde_json::Value>(bytes)
}

/// `Value::get` with a string key, narrowed to string members: the text of
/// the member `key` where the value is an object that has such a member and
/// the member is a string, nothing otherwise.
#[verifier::external_body]
pub(crate) fn string_member(doc: &serde_json::Value, key: &str) -> (r: Option<String>)
    ensures
        r is Some <==> string_members(*doc).contains_key(key@),
        r matches Some(s) ==> s@ == string_members(*doc)[key@],
{
    match doc.get(key) {
        Some(serde_json::Value::String(s)) => Some(s.clone()),
        _ => None,
    }
}

/// `String::from_utf8_lossy`: the bytes as text, each invalid sequence
/// replaced by U+FFFD.
#[verifier::external_body]
pub(crate) fn text_of_bytes(bytes: &[u8]) -> (r: String)
    ensures
        r@ == lossy_text(bytes@),
{
    String::from_utf8_lossy(bytes).into_owned()
}

/// The member `key` of `members`, or the empty text where there is none.
pub open spec fn member_or_empty(members: Map<Seq<char>, Seq<char>>, key: Seq<char>) -> Seq<char> {
    if members.contains_key(key) {
        members[key]
    } else {
        Seq::<char>::empty()
    }
}

/// The string member `key` of a document, or the empty text.
pub fn member_text(doc: &serde_json::Value, key: &str) -> (r: String)
    ensures
        r@ == member_or_empty(string_members(*doc), key@),
{
    match string_member(doc, key) {
        Some(s) => s,
        None => String::new(),
    }
}

} // verus!
