//! JSON values as `serde_json` holds them, and what this library takes on
//! trust about them.

use vstd::prelude::*;

verus! {

/// `serde_json::Value`, carried through without a look inside.
#[verifier::external_type_specification]
#[verifier::external_body]
pub struct ExJsonValue(serde_json::Value);

/// `serde_json::Error`, carried through without a look inside.
#[verifier::external_type_specification]
#[verifier::external_body]
pub struct ExJsonError(serde_json::Error);

/// The compact JSON text of a value: what `serde_json::to_string` writes for it.
pub uninterp spec fn json_text(value: serde_json::Value) -> Seq<char>;

/// The message of a JSON error: what its `Display` impl writes.
pub uninterp spec fn json_error_text(error: serde_json::Error) -> Seq<char>;

/// Calls `serde_json::to_string` on a JSON value. The call succeeds and the
/// text is the value's compact JSON text. It succeeds on every value
/// because a `serde_json::Value` is written through nulls, booleans,
/// numbers, strings, sequences and maps with string keys only, none of which
/// the encoder refuses, and because the text is written to a vector in
/// memory, whose writes do not fail.
#[verifier::external_body]
pub(crate) fn to_json_text(value: &serde_json::Value) -> (res: Result<String, serde_json::Error>)
    ensures
        res is Ok,
        res matches Ok(text) ==> text@ == json_text(*value),
{
    serde_json::to_string(value)
}

/// Calls `to_string` on a `serde_json::Error`, which formats it through its
/// `Display` impl.
#[verifier::external_body]
pub(crate) fn json_error_message(error: &serde_json::Error) -> (res: String)
    ensures
        res@ == json_error_text(*error),
{
    error.to_string()
}

/// Builds `serde_json::Value::Object` over an empty `serde_json::Map`, whose
/// compact text is a pair of braces.
#[verifier::external_body]
pub(crate) fn empty_json_object() -> (res: serde_json::Value)
    ensures
        json_text(res) == seq!['{', '}'],
{
    serde_json::Value::Object(serde_json::Map::new())
}

/// `Clone::clone` of `serde_json::Value`: the derived impl copies the whole
/// tree, so the copy is the same JSON value.
pub assume_specification[ <serde_json::Value as Clone>::clone ](
    value: &serde_json::Value,
) -> (res: serde_json::Value)
    ensures
        res == *value,
;

} // verus!
