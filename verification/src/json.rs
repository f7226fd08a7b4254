//! The few things the crate asks of `serde_json`.

use vstd::prelude::*;

verus! {

/// `serde_json::Value`, any JSON value. Nothing inside it is visible to the
/// verifier: what the crate reads of one goes by the names below.
#[verifier::external_type_specification]
#[verifier::external_body]
pub struct ExJsonValue(serde_json::Value);

/// What `serde_json::Value::as_i64` returns for a JSON value: the number the
/// value holds, if the value is an integer that fits an `i64`.
pub uninterp spec fn json_integer(value: serde_json::Value) -> Option<i64>;

/// What `serde_json::Value::as_str` returns for a JSON value: the text the
/// value holds, if the value is a string.
pub uninterp spec fn json_text(value: serde_json::Value) -> Option<Seq<char>>;

/// What the `Debug` implementation of `serde_json::Value` writes for a JSON
/// value.
pub uninterp spec fn json_debug(value: serde_json::Value) -> Seq<char>;

/// `Value::as_i64` reads nothing but the value, so what it returns is a
/// function of the value: it goes by the name [`json_integer`].
pub assume_specification[ serde_json::Value::as_i64 ](value: &serde_json::Value) -> (r: Option<
    i64,
>)
    ensures
        r == json_integer(*value),
;

/// `Value::as_str` reads nothing but the value, so what it returns is a
/// function of the value: its text goes by the name [`json_text`].
pub assume_specification<'a>[ serde_json::Value::as_str ](value: &'a serde_json::Value) -> (r:
    Option<&'a str>)
    ensures
        match r {
            Some(text) => json_text(*value) == Some(text@),
            None => json_text(*value) is None,
        },
;

/// Formats a `serde_json::Value` with its `Debug` implementation, which
/// writes what the value holds and nothing else: the text goes by the name
/// [`json_debug`].
#[verifier::external_body]
pub(crate) fn debug_text(value: &serde_json::Value) -> (r: String)
    ensures
        r@ == json_debug(*value),
{
    format!("{:?}", value)
}

/// The JSON string literal, quotes and escapes included, that `serde_json`
/// writes for the text `text`.
pub uninterp spec fn json_string(text: Seq<char>) -> Seq<char>;

/// Writes a text as a JSON string literal: wraps it in a `serde_json::Value`
/// and formats that with `Display`, which gives the compact JSON form.
#[verifier::external_body]
pub(crate) fn quote(text: &str) -> (r: String)
    ensures
        r@ == json_string(text@),
{
    serde_json::Value::from(text).to_string()
}

} // verus!
