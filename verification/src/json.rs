//! Reading single values out of a JSON document.
//!
//! A value is addressed by a JSON pointer: the names of the members that
//! lead to it, each behind a slash, as in `/metadata/role`; an element of an
//! array is addressed by its index, as in `/keys/0`.

use vstd::prelude::*;
use vstd::string::StringExecFns;
use crate::text::opt_text;

verus! {

/// The text that `document` holds at `pointer`; `None` when `document` is
/// not JSON, holds nothing at `pointer`, or holds something other than a
/// text there.
pub uninterp spec fn json_text_at(document: Seq<char>, pointer: Seq<char>) -> Option<Seq<char>>;

/// The integer that `document` holds at `pointer`; `None` when `document`
/// is not JSON, holds nothing at `pointer`, or holds something other than an
/// integer of 64 bits there.
pub uninterp spec fn json_integer_at(document: Seq<char>, pointer: Seq<char>) -> Option<i64>;

/// The length of the array that `document` holds at `pointer`; `None` when
/// `document` is not JSON, holds nothing at `pointer`, or holds something
/// other than an array there.
pub uninterp spec fn json_length_at(document: Seq<char>, pointer: Seq<char>) -> Option<usize>;

/// Calls `serde_json::from_str` for a `serde_json::Value` once, a text
/// that is not JSON standing as the null value, in which no pointer finds
/// a text; then, for each of `pointers` in turn, `Value::pointer` and
/// `Value::as_str`. The calls read nothing but `document` and the pointer
/// at hand; what comes out for a pointer is named `json_text_at`.
#[verifier::external_body]
pub(crate) fn json_texts(document: &str, pointers: &Vec<String>) -> (texts: Vec<Option<String>>)
    ensures
        texts@.len() == pointers@.len(),
        forall|at: int|
            0 <= at < pointers@.len() ==> opt_text(#[trigger] texts@[at]) == json_text_at(
                document@,
                pointers@[at]@,
            ),
{
    let value: serde_json::Value = serde_json::from_str(document).unwrap_or_default();
    pointers.iter().map(
        |pointer| value.pointer(pointer).and_then(serde_json::Value::as_str).map(str::to_owned),
    ).collect()
}

/// Calls `serde_json::from_str` for a `serde_json::Value`, then
/// `Value::pointer` and `Value::as_i64`. The calls read nothing but
/// `document` and `pointer`; the outcome is named `json_integer_at`.
#[verifier::external_body]
pub(crate) fn json_integer(document: &str, pointer: &str) -> (integer: Option<i64>)
    ensures
        integer == json_integer_at(document@, pointer@),
{
    let value: serde_json::Value = serde_json::from_str(document).ok()?;
    value.pointer(pointer)?.as_i64()
}

/// Calls `serde_json::from_str` for a `serde_json::Value`, then
/// `Value::pointer` and `Value::as_array`, and takes the length of the
/// array. The calls read nothing but `document` and `pointer`; the outcome
/// is named `json_length_at`.
#[verifier::external_body]
pub(crate) fn json_length(document: &str, pointer: &str) -> (length: Option<usize>)
    ensures
        length == json_length_at(document@, pointer@),
{
    let value: serde_json::Value = serde_json::from_str(document).ok()?;
    value.pointer(pointer)?.as_array().map(Vec::len)
}

/// The text that `document` holds at `pointer`.
pub fn json_text(document: &str, pointer: &str) -> (text: Option<String>)
    ensures
        opt_text(text) == json_text_at(document@, pointer@),
{
    let mut pointers: Vec<String> = Vec::new();
    pointers.push(String::from_str(pointer));
    let mut texts = json_texts(document, &pointers);
    texts.pop().unwrap()
}

} // verus!
