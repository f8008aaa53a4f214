//! The protocol codec: from the text an engine wrote to a response envelope,
//! and from an envelope to the data or the failure it carries.
//!
//! An envelope is a JSON object with a boolean `success`, a string
//! `schema_version`, a string `timestamp` that holds a date and time, and
//! exactly one of the keys `data` and `error`. The key that is present says
//! which kind of payload the envelope carries; `success` is kept as it was
//! sent and does not decide.

use crate::cli_types::{
    CliPayload, CliResponse, EngineErrorView, Instant, PayloadView, ResponseView, ValidateResult,
    ValidateResultView, VersionInfo, VersionInfoView,
};
use crate::error::{CliError, CliErrorView};
use crate::json::{
    clone_value, json_as_bool, json_as_i64, json_as_str, json_bool, json_error_message,
    json_error_text, json_get, json_integer, json_is_null, json_members, json_null, json_text,
    parse_instant, parse_json, parsed_instant, parsed_json,
};
use crate::text::{is_blank, opt_text, trim_text};
use serde_json::Value;
use vstd::prelude::*;

verus! {

pub const EMPTY_RESPONSE: &'static str = "the response is empty";

pub const BAD_SUCCESS: &'static str = "envelope field `success` is missing or not a boolean";

pub const BAD_SCHEMA_VERSION: &'static str =
    "envelope field `schema_version` is missing or not a string";

pub const BAD_TIMESTAMP: &'static str =
    "envelope field `timestamp` is missing or not a date and time";

pub const NO_PAYLOAD: &'static str = "envelope holds neither `data` nor `error`";

pub const TWO_PAYLOADS: &'static str = "envelope holds both `data` and `error`";

pub const BAD_ERROR_CODE: &'static str = "error field `code` is missing or not a string";

pub const BAD_ERROR_MESSAGE: &'static str = "error field `message` is missing or not a string";

pub const BAD_VERSION: &'static str = "version field `version` is missing or not a string";

pub const BAD_PLATFORM: &'static str = "version field `platform` is missing or not a string";

pub const BAD_VERSION_SCHEMA: &'static str =
    "version field `schema_version` is missing or not a string";

pub const BAD_BUILD_DATE: &'static str =
    "version field `build_date` is missing or not a date and time";

pub const BAD_STATUS: &'static str = "validation field `status` is missing or not a string";

pub const BAD_YEAR: &'static str =
    "validation field `year` is missing or not an integer of 32 bits";

pub const BAD_MESSAGE: &'static str = "validation field `message` is missing or not a string";

/// The member of an object under a key, if the value is an object that has
/// one.
pub open spec fn member(v: Value, key: Seq<char>) -> Option<Value> {
    if json_members(v).contains_key(key) {
        Some(json_members(v)[key])
    } else {
        None
    }
}

/// The text of the member under a key, if there is such a member and it is a
/// string.
pub open spec fn text_member(v: Value, key: Seq<char>) -> Option<Seq<char>> {
    match member(v, key) {
        Some(m) => json_text(m),
        None => None,
    }
}

/// The truth value of the member under a key, if there is such a member and
/// it is a boolean.
pub open spec fn bool_member(v: Value, key: Seq<char>) -> Option<bool> {
    match member(v, key) {
        Some(m) => json_bool(m),
        None => None,
    }
}

/// The instant in the member under a key, if there is such a member and it
/// is a string that holds a date and time.
pub open spec fn instant_member(v: Value, key: Seq<char>) -> Option<Instant> {
    match text_member(v, key) {
        Some(t) => parsed_instant(t),
        None => None,
    }
}

/// The number of the member under a key, if there is such a member and it
/// is an integer that fits 32 signed bits.
pub open spec fn i32_member(v: Value, key: Seq<char>) -> Option<i32> {
    match member(v, key) {
        Some(m) => match json_integer(m) {
            Some(n) => if i32::MIN <= n <= i32::MAX {
                Some(n as i32)
            } else {
                None
            },
            None => None,
        },
        None => None,
    }
}

/// The failure for a document that is no well-formed envelope.
pub open spec fn malformed(why: Seq<char>) -> CliErrorView {
    CliErrorView::JsonError(why)
}

/// The details of an engine failure: absent where the key is missing or
/// holds `null`.
pub open spec fn details_of(e: Value) -> Option<Value> {
    match member(e, "details"@) {
        Some(d) => if json_is_null(d) {
            None
        } else {
            Some(d)
        },
        None => None,
    }
}

/// The engine failure a value stands for.
pub open spec fn engine_error_of(e: Value) -> Result<EngineErrorView, CliErrorView> {
    match text_member(e, "code"@) {
        None => Err(malformed(BAD_ERROR_CODE@)),
        Some(code) => match text_member(e, "message"@) {
            None => Err(malformed(BAD_ERROR_MESSAGE@)),
            Some(message) => Ok(EngineErrorView { code, message, details: details_of(e) }),
        },
    }
}

/// The payload of an envelope, told by the key that is present. Both keys
/// together, and neither of them, make the envelope malformed.
pub open spec fn payload_of(v: Value) -> Result<PayloadView<Value>, CliErrorView> {
    match (member(v, "data"@), member(v, "error"@)) {
        (Some(_), Some(_)) => Err(malformed(TWO_PAYLOADS@)),
        (None, None) => Err(malformed(NO_PAYLOAD@)),
        (Some(data), None) => Ok(PayloadView::Success { data }),
        (None, Some(e)) => match engine_error_of(e) {
            Ok(error) => Ok(PayloadView::Error { error }),
            Err(x) => Err(x),
        },
    }
}

/// The envelope a document stands for, or the reason why it is none.
pub open spec fn envelope_of(v: Value) -> Result<ResponseView<Value>, CliErrorView> {
    match bool_member(v, "success"@) {
        None => Err(malformed(BAD_SUCCESS@)),
        Some(success) => match text_member(v, "schema_version"@) {
            None => Err(malformed(BAD_SCHEMA_VERSION@)),
            Some(schema_version) => match instant_member(v, "timestamp"@) {
                None => Err(malformed(BAD_TIMESTAMP@)),
                Some(timestamp) => match payload_of(v) {
                    Err(x) => Err(x),
                    Ok(payload) => Ok(
                        ResponseView { success, schema_version, timestamp, payload },
                    ),
                },
            },
        },
    }
}

/// The version record a value stands for, or the reason why it is none.
pub open spec fn version_info_of(d: Value) -> Result<VersionInfoView, CliErrorView> {
    match text_member(d, "version"@) {
        None => Err(malformed(BAD_VERSION@)),
        Some(version) => match text_member(d, "platform"@) {
            None => Err(malformed(BAD_PLATFORM@)),
            Some(platform) => match text_member(d, "schema_version"@) {
                None => Err(malformed(BAD_VERSION_SCHEMA@)),
                Some(schema_version) => match instant_member(d, "build_date"@) {
                    None => Err(malformed(BAD_BUILD_DATE@)),
                    Some(build_date) => Ok(
                        VersionInfoView { version, platform, schema_version, build_date },
                    ),
                },
            },
        },
    }
}

/// The answer to a configuration check that a value stands for, or the
/// reason why it is none.
pub open spec fn validate_result_of(d: Value) -> Result<ValidateResultView, CliErrorView> {
    match text_member(d, "status"@) {
        None => Err(malformed(BAD_STATUS@)),
        Some(status) => match i32_member(d, "year"@) {
            None => Err(malformed(BAD_YEAR@)),
            Some(year) => match text_member(d, "message"@) {
                None => Err(malformed(BAD_MESSAGE@)),
                Some(message) => Ok(ValidateResultView { status, year, message }),
            },
        },
    }
}

/// What a payload means for the caller: its data, or the engine's failure.
pub open spec fn payload_result<T>(p: PayloadView<T>) -> Result<T, CliErrorView> {
    match p {
        PayloadView::Success { data } => Ok(data),
        PayloadView::Error { error } => Err(
            CliErrorView::CliError { code: error.code, message: error.message },
        ),
    }
}

/// What a document means as the answer to a call: the data of its envelope,
/// the engine's failure, or the reason why it is no envelope.
pub open spec fn reply_of(v: Value) -> Result<Value, CliErrorView> {
    match envelope_of(v) {
        Err(x) => Err(x),
        Ok(envelope) => payload_result(envelope.payload),
    }
}

/// The document in a text. Blank text is malformed. So is text that is no
/// JSON document; the failure then carries the parser's complaint.
pub open spec fn document_of(text: Seq<char>) -> Result<Value, CliErrorView> {
    if is_blank(text) {
        Err(malformed(EMPTY_RESPONSE@))
    } else {
        match parsed_json(text) {
            Ok(v) => Ok(v),
            Err(e) => Err(malformed(json_error_message(e))),
        }
    }
}

/// The envelope in a text.
pub open spec fn decoded_envelope(text: Seq<char>) -> Result<ResponseView<Value>, CliErrorView> {
    match document_of(text) {
        Ok(v) => envelope_of(v),
        Err(x) => Err(x),
    }
}

/// The answer in a text: the data of its envelope, or the failure the call
/// ends with.
pub open spec fn decoded_reply(text: Seq<char>) -> Result<Value, CliErrorView> {
    match document_of(text) {
        Ok(v) => reply_of(v),
        Err(x) => Err(x),
    }
}

/// The version record in the answer to a version query.
pub open spec fn decoded_version(text: Seq<char>) -> Result<VersionInfoView, CliErrorView> {
    match decoded_reply(text) {
        Ok(data) => version_info_of(data),
        Err(x) => Err(x),
    }
}

/// The answer to a configuration check.
pub open spec fn decoded_validation(text: Seq<char>) -> Result<ValidateResultView, CliErrorView> {
    match decoded_reply(text) {
        Ok(data) => validate_result_of(data),
        Err(x) => Err(x),
    }
}

pub open spec fn response_result(r: Result<CliResponse<Value>, CliError>) -> Result<
    ResponseView<Value>,
    CliErrorView,
> {
    match r {
        Ok(x) => Ok(x@),
        Err(e) => Err(e@),
    }
}

pub open spec fn version_result(r: Result<VersionInfo, CliError>) -> Result<
    VersionInfoView,
    CliErrorView,
> {
    match r {
        Ok(x) => Ok(x@),
        Err(e) => Err(e@),
    }
}

pub open spec fn validation_result(r: Result<ValidateResult, CliError>) -> Result<
    ValidateResultView,
    CliErrorView,
> {
    match r {
        Ok(x) => Ok(x@),
        Err(e) => Err(e@),
    }
}

pub open spec fn data_result<T>(r: Result<T, CliError>) -> Result<T, CliErrorView> {
    match r {
        Ok(x) => Ok(x),
        Err(e) => Err(e@),
    }
}

fn value_field(v: &Value, key: &str) -> (r: Option<Value>)
    ensures
        r == member(*v, key@),
{
    match json_get(v, key) {
        Some(m) => Some(clone_value(m)),
        None => None,
    }
}

fn text_field(v: &Value, key: &str) -> (r: Option<String>)
    ensures
        opt_text(r) == text_member(*v, key@),
{
    match json_get(v, key) {
        Some(m) => match json_as_str(m) {
            Some(s) => Some(s.to_owned()),
            None => None,
        },
        None => None,
    }
}

fn bool_field(v: &Value, key: &str) -> (r: Option<bool>)
    ensures
        r == bool_member(*v, key@),
{
    match json_get(v, key) {
        Some(m) => json_as_bool(m),
        None => None,
    }
}

fn i32_field(v: &Value, key: &str) -> (r: Option<i32>)
    ensures
        r == i32_member(*v, key@),
{
    match json_get(v, key) {
        Some(m) => match json_as_i64(m) {
            Some(n) => if -2147483648 <= n && n <= 2147483647 {
                Some(n as i32)
            } else {
                None
            },
            None => None,
        },
        None => None,
    }
}

fn instant_field(v: &Value, key: &str) -> (r: Option<Instant>)
    ensures
        r == instant_member(*v, key@),
{
    match json_get(v, key) {
        Some(m) => match json_as_str(m) {
            Some(s) => parse_instant(s),
            None => None,
        },
        None => None,
    }
}

fn malformed_error(why: &str) -> (r: CliError)
    ensures
        r@ == malformed(why@),
{
    CliError::JsonError(why.to_owned())
}

fn decode_engine_error(e: &Value) -> (r: Result<crate::cli_types::CliError, CliError>)
    ensures
        match r {
            Ok(x) => Ok::<EngineErrorView, CliErrorView>(x@),
            Err(x) => Err::<EngineErrorView, CliErrorView>(x@),
        } == engine_error_of(*e),
{
    let code = match text_field(e, "code") {
        Some(c) => c,
        None => {
            return Err(malformed_error(BAD_ERROR_CODE));
        },
    };
    let message = match text_field(e, "message") {
        Some(m) => m,
        None => {
            return Err(malformed_error(BAD_ERROR_MESSAGE));
        },
    };
    let details = match json_get(e, "details") {
        Some(d) => if json_null(d) {
            None
        } else {
            Some(clone_value(d))
        },
        None => None,
    };
    Ok(crate::cli_types::CliError { code, message, details })
}

fn decode_payload(v: &Value) -> (r: Result<CliPayload<Value>, CliError>)
    ensures
        match r {
            Ok(x) => Ok::<PayloadView<Value>, CliErrorView>(x@),
            Err(x) => Err::<PayloadView<Value>, CliErrorView>(x@),
        } == payload_of(*v),
{
    let data = value_field(v, "data");
    let error = json_get(v, "error");
    match (data, error) {
        (Some(_), Some(_)) => Err(malformed_error(TWO_PAYLOADS)),
        (None, None) => Err(malformed_error(NO_PAYLOAD)),
        (Some(data), None) => Ok(CliPayload::Success { data }),
        (None, Some(e)) => match decode_engine_error(e) {
            Ok(error) => Ok(CliPayload::Error { error }),
            Err(x) => Err(x),
        },
    }
}

/// Reads a parsed document as a response envelope.
pub fn decode_value(v: &Value) -> (r: Result<CliResponse<Value>, CliError>)
    ensures
        response_result(r) == envelope_of(*v),
{
    let success = match bool_field(v, "success") {
        Some(b) => b,
        None => {
            return Err(malformed_error(BAD_SUCCESS));
        },
    };
    let schema_version = match text_field(v, "schema_version") {
        Some(s) => s,
        None => {
            return Err(malformed_error(BAD_SCHEMA_VERSION));
        },
    };
    let timestamp = match instant_field(v, "timestamp") {
        Some(t) => t,
        None => {
            return Err(malformed_error(BAD_TIMESTAMP));
        },
    };
    match decode_payload(v) {
        Ok(payload) => Ok(CliResponse { success, schema_version, timestamp, payload }),
        Err(x) => Err(x),
    }
}

/// Reads the data of a version query as a version record.
pub fn decode_version_info(d: &Value) -> (r: Result<VersionInfo, CliError>)
    ensures
        version_result(r) == version_info_of(*d),
{
    let version = match text_field(d, "version") {
        Some(s) => s,
        None => {
            return Err(malformed_error(BAD_VERSION));
        },
    };
    let platform = match text_field(d, "platform") {
        Some(s) => s,
        None => {
            return Err(malformed_error(BAD_PLATFORM));
        },
    };
    let schema_version = match text_field(d, "schema_version") {
        Some(s) => s,
        None => {
            return Err(malformed_error(BAD_VERSION_SCHEMA));
        },
    };
    let build_date = match instant_field(d, "build_date") {
        Some(t) => t,
        None => {
            return Err(malformed_error(BAD_BUILD_DATE));
        },
    };
    Ok(VersionInfo { version, platform, schema_version, build_date })
}

/// Reads the data of a configuration check as its answer.
pub fn decode_validate_result(d: &Value) -> (r: Result<ValidateResult, CliError>)
    ensures
        validation_result(r) == validate_result_of(*d),
{
    let status = match text_field(d, "status") {
        Some(s) => s,
        None => {
            return Err(malformed_error(BAD_STATUS));
        },
    };
    let year = match i32_field(d, "year") {
        Some(y) => y,
        None => {
            return Err(malformed_error(BAD_YEAR));
        },
    };
    let message = match text_field(d, "message") {
        Some(s) => s,
        None => {
            return Err(malformed_error(BAD_MESSAGE));
        },
    };
    Ok(ValidateResult { status, year, message })
}

/// Unwraps an envelope: the data of a success, the engine's failure
/// otherwise.
pub fn into_result<T>(response: CliResponse<T>) -> (r: Result<T, CliError>)
    ensures
        data_result(r) == payload_result(response@.payload),
{
    match response.payload {
        CliPayload::Success { data } => Ok(data),
        CliPayload::Error { error } => Err(
            CliError::CliError { code: error.code, message: error.message },
        ),
    }
}

/// Parses a text as a JSON document, unless the text is blank.
pub fn parse_document(text: &str) -> (r: Result<Value, CliError>)
    ensures
        data_result(r) == document_of(text@),
{
    if trim_text(text).is_empty() {
        return Err(malformed_error(EMPTY_RESPONSE));
    }
    match parse_json(text) {
        Ok(v) => Ok(v),
        Err(e) => Err(CliError::JsonError(json_error_text(&e))),
    }
}

/// Decodes the text an engine wrote into a response envelope.
///
/// The call fails with `JsonError` where the text is blank, is no JSON
/// document, or is a document that is no envelope.
pub fn decode_envelope(text: &str) -> (r: Result<CliResponse<Value>, CliError>)
    ensures
        response_result(r) == decoded_envelope(text@),
{
    match parse_document(text) {
        Ok(v) => decode_value(&v),
        Err(x) => Err(x),
    }
}

/// Decodes the text an engine wrote into the data it answers with.
///
/// Besides the failures of `decode_envelope` the call fails with the
/// engine's own failure where the envelope carries one.
pub fn decode_reply(text: &str) -> (r: Result<Value, CliError>)
    ensures
        data_result(r) == decoded_reply(text@),
{
    match parse_document(text) {
        Ok(v) => match decode_value(&v) {
            Ok(envelope) => into_result(envelope),
            Err(x) => Err(x),
        },
        Err(x) => Err(x),
    }
}

/// Decodes the text an engine wrote in answer to a version query.
pub fn decode_version_reply(text: &str) -> (r: Result<VersionInfo, CliError>)
    ensures
        version_result(r) == decoded_version(text@),
{
    match decode_reply(text) {
        Ok(data) => decode_version_info(&data),
        Err(x) => Err(x),
    }
}

/// Decodes the text an engine wrote in answer to a configuration check.
pub fn decode_validate_reply(text: &str) -> (r: Result<ValidateResult, CliError>)
    ensures
        validation_result(r) == decoded_validation(text@),
{
    match decode_reply(text) {
        Ok(data) => decode_validate_result(&data),
        Err(x) => Err(x),
    }
}

} // verus!
