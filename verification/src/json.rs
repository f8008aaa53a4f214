//! The JSON documents the engine writes, as `serde_json` parses them, and the
//! timestamps in them, as `chrono` reads them.
//!
//! Nothing in this module is proved. Each function hands one call on to the
//! crate that does the work, and its contract says what that crate's source
//! shows of the call.

use crate::cli_types::Instant;
use vstd::prelude::*;

verus! {

#[verifier::external_type_specification]
#[verifier::external_body]
pub struct ExValue(serde_json::Value);

#[verifier::external_type_specification]
#[verifier::external_body]
pub struct ExJsonError(serde_json::Error);

/// What `serde_json::from_str` makes of a text: a document, or the error it
/// reports instead.
pub uninterp spec fn parsed_json(text: Seq<char>) -> Result<serde_json::Value, serde_json::Error>;

/// The text that `serde_json` renders an error with.
pub uninterp spec fn json_error_message(e: serde_json::Error) -> Seq<char>;

/// The members of a JSON object, by key. A value that is no object has none.
pub uninterp spec fn json_members(v: serde_json::Value) -> Map<Seq<char>, serde_json::Value>;

/// The text of a JSON string; `None` for every other kind of value.
pub uninterp spec fn json_text(v: serde_json::Value) -> Option<Seq<char>>;

/// The truth value of a JSON boolean; `None` for every other kind of value.
pub uninterp spec fn json_bool(v: serde_json::Value) -> Option<bool>;

/// The number of a JSON integer that fits 64 signed bits; `None` for every
/// other value, a fractional number included.
pub uninterp spec fn json_integer(v: serde_json::Value) -> Option<i64>;

/// Whether a value is JSON's `null`.
pub uninterp spec fn json_is_null(v: serde_json::Value) -> bool;

/// The instant that `chrono` reads from a text as a date and time with an
/// offset, in its relaxed RFC 3339 form; `None` where it reports an error.
pub uninterp spec fn parsed_instant(text: Seq<char>) -> Option<Instant>;

/// Calls `serde_json::from_str` for a `Value`. The result depends on the text
/// alone: the same text always gives the same document, or always the same
/// error.
#[verifier::external_body]
pub(crate) fn parse_json(text: &str) -> (r: Result<serde_json::Value, serde_json::Error>)
    ensures
        r == parsed_json(text@),
{
    serde_json::from_str::<serde_json::Value>(text)
}

/// Calls `Display` of `serde_json::Error` for the text of a parse error. The
/// text depends on the error alone.
#[verifier::external_body]
pub(crate) fn json_error_text(e: &serde_json::Error) -> (r: String)
    ensures
        r@ == json_error_message(*e),
{
    e.to_string()
}

/// Calls `Value::get` with a string key: the member under that key where the
/// value is an object that has one, `None` for a missing key and for a value
/// that is no object.
#[verifier::external_body]
pub(crate) fn json_get<'a>(v: &'a serde_json::Value, key: &str) -> (r: Option<
    &'a serde_json::Value,
>)
    ensures
        match r {
            Some(m) => json_members(*v).contains_key(key@) && json_members(*v)[key@] == *m,
            None => !json_members(*v).contains_key(key@),
        },
{
    v.get(key)
}

/// Calls `Value::as_str`: the text of a JSON string, `None` for any other
/// value.
#[verifier::external_body]
pub(crate) fn json_as_str<'a>(v: &'a serde_json::Value) -> (r: Option<&'a str>)
    ensures
        match r {
            Some(s) => json_text(*v) == Some(s@),
            None => json_text(*v) is None,
        },
{
    v.as_str()
}

/// Calls `Value::as_bool`: the truth value of a JSON boolean, `None` for any
/// other value.
#[verifier::external_body]
pub(crate) fn json_as_bool(v: &serde_json::Value) -> (r: Option<bool>)
    ensures
        r == json_bool(*v),
{
    v.as_bool()
}

/// Calls `Value::as_i64`: the number of a JSON integer that fits 64 signed
/// bits, `None` for any other value.
#[verifier::external_body]
pub(crate) fn json_as_i64(v: &serde_json::Value) -> (r: Option<i64>)
    ensures
        r == json_integer(*v),
{
    v.as_i64()
}

/// Calls `Value::is_null`.
#[verifier::external_body]
pub(crate) fn json_null(v: &serde_json::Value) -> (r: bool)
    ensures
        r == json_is_null(*v),
{
    v.is_null()
}

/// Calls `Clone` of `Value`: the copy is the same document.
#[verifier::external_body]
pub(crate) fn clone_value(v: &serde_json::Value) -> (r: serde_json::Value)
    ensures
        r == *v,
{
    v.clone()
}

/// Calls `FromStr` of `chrono::DateTime<FixedOffset>`, and reads the instant
/// off the result with `timestamp` and `timestamp_subsec_nanos`. The result
/// depends on the text alone.
#[verifier::external_body]
pub(crate) fn parse_instant(text: &str) -> (r: Option<Instant>)
    ensures
        r == parsed_instant(text@),
{
    match text.parse::<chrono::DateTime<chrono::FixedOffset>>() {
        Ok(t) => Some(Instant { secs: t.timestamp(), nanos: t.timestamp_subsec_nanos() }),
        Err(_) => None,
    }
}

} // verus!
