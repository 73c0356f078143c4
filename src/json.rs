//! Lookups into JSON documents, answered by serde_json.
//!
//! A document is read with `serde_json::from_str` into a `serde_json::Value`
//! and the value is addressed with a JSON pointer (`Value::pointer`,
//! RFC 6901). What such a lookup yields depends on the document text and the
//! pointer alone, so each kind of lookup has a name below.
use vstd::prelude::*;

verus! {

/// The string that a JSON pointer addresses in a document, when the document
/// parses and the addressed value is a string.
pub uninterp spec fn json_text_at(doc: Seq<char>, pointer: Seq<char>) -> Option<Seq<char>>;

/// The integer that a JSON pointer addresses in a document, when the document
/// parses and the addressed value is a number that fits an `i64`.
pub uninterp spec fn json_int_at(doc: Seq<char>, pointer: Seq<char>) -> Option<int>;

/// The integer that a JSON pointer addresses in a document, when the document
/// parses and the addressed value is a number that fits a `u64`.
pub uninterp spec fn json_uint_at(doc: Seq<char>, pointer: Seq<char>) -> Option<int>;

/// The boolean that a JSON pointer addresses in a document, when the document
/// parses and the addressed value is a boolean.
pub uninterp spec fn json_flag_at(doc: Seq<char>, pointer: Seq<char>) -> Option<bool>;

/// The number of elements of the array that a JSON pointer addresses in a
/// document, when the document parses and the addressed value is an array.
pub uninterp spec fn json_count_at(doc: Seq<char>, pointer: Seq<char>) -> Option<nat>;

/// The view of an optional string.
pub open spec fn opt_text(o: Option<String>) -> Option<Seq<char>> {
    match o {
        Some(s) => Some(s@),
        None => None,
    }
}

/// Relies on `serde_json::from_str`, `Value::pointer` and `Value::as_str`:
/// the string at `pointer`, if the document parses and holds one there.
#[verifier::external_body]
pub(crate) fn text_at(doc: &str, pointer: &str) -> (r: Option<String>)
    ensures
        opt_text(r) == json_text_at(doc@, pointer@),
{
    let v: serde_json::Value = serde_json::from_str(doc).ok()?;
    Some(v.pointer(pointer)?.as_str()?.to_string())
}

/// Relies on `serde_json::from_str`, `Value::pointer` and `Value::as_i64`:
/// the integer at `pointer`, if the document parses and holds one there that
/// fits an `i64`.
#[verifier::external_body]
pub(crate) fn int_at(doc: &str, pointer: &str) -> (r: Option<i64>)
    ensures
        json_int_at(doc@, pointer@) == (match r {
            Some(n) => Some(n as int),
            None => None::<int>,
        }),
{
    let v: serde_json::Value = serde_json::from_str(doc).ok()?;
    v.pointer(pointer)?.as_i64()
}

/// Relies on `serde_json::from_str`, `Value::pointer` and `Value::as_u64`:
/// the integer at `pointer`, if the document parses and holds one there that
/// fits a `u64`.
#[verifier::external_body]
pub(crate) fn uint_at(doc: &str, pointer: &str) -> (r: Option<u64>)
    ensures
        json_uint_at(doc@, pointer@) == (match r {
            Some(n) => Some(n as int),
            None => None::<int>,
        }),
{
    let v: serde_json::Value = serde_json::from_str(doc).ok()?;
    v.pointer(pointer)?.as_u64()
}

/// Relies on `serde_json::from_str`, `Value::pointer` and `Value::as_bool`:
/// the boolean at `pointer`, if the document parses and holds one there.
#[verifier::external_body]
pub(crate) fn flag_at(doc: &str, pointer: &str) -> (r: Option<bool>)
    ensures
        r == json_flag_at(doc@, pointer@),
{
    let v: serde_json::Value = serde_json::from_str(doc).ok()?;
    v.pointer(pointer)?.as_bool()
}

/// Relies on `serde_json::from_str`, `Value::pointer` and `Value::as_array`:
/// the length of the array at `pointer`, if the document parses and holds
/// one there.
#[verifier::external_body]
pub(crate) fn count_at(doc: &str, pointer: &str) -> (r: Option<usize>)
    ensures
        json_count_at(doc@, pointer@) == (match r {
            Some(n) => Some(n as nat),
            None => None::<nat>,
        }),
{
    let v: serde_json::Value = serde_json::from_str(doc).ok()?;
    Some(v.pointer(pointer)?.as_array()?.len())
}

} // verus!
