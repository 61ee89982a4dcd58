use vstd::prelude::*;
use vstd::string::*;
use crate::error::{ApiError, OpenAIError};
use crate::json::{
    json_error_text, json_parses, json_value_of, json_str_at, json_string_at, lossy_text, parse_json, utf8_lossy,
};
use crate::multipart::opt_view;

verus! {

pub open spec fn is_success_spec(status: u16) -> bool {
    200 <= status <= 299
}

/// Whether an HTTP status is a success.
pub fn is_success(status: u16) -> (r: bool)
    ensures
        r == is_success_spec(status),
{
    200 <= status && status <= 299
}

/// The error for a non-success response, from what its body held: the
/// service's error object when the body gave a message, else the raw status
/// and body text.
pub fn api_error(
    status: u16,
    body_text: String,
    message: Option<String>,
    error_type: Option<String>,
    param: Option<String>,
    code: Option<String>,
) -> (r: OpenAIError)
    ensures
        match message {
            Some(m) => r == OpenAIError::Api(ApiError { message: m, error_type, param, code }),
            None => r == (OpenAIError::ApiStatus { status, body: body_text }),
        },
{
    match message {
        Some(m) => OpenAIError::Api(ApiError { message: m, error_type, param, code }),
        None => OpenAIError::ApiStatus { status, body: body_text },
    }
}

/// What decoding a response must give for a non-success status.
pub open spec fn error_of_response(status: u16, body: Seq<u8>, e: OpenAIError) -> bool {
    match json_str_at(body, "/error/message"@) {
        Some(m) => e matches OpenAIError::Api(a) && a.message@ == m
            && opt_view(a.error_type) == json_str_at(body, "/error/type"@)
            && opt_view(a.param) == json_str_at(body, "/error/param"@)
            && opt_view(a.code) == json_str_at(body, "/error/code"@),
        None => e matches OpenAIError::ApiStatus { status: s, body: t } && s == status
            && t@ == utf8_lossy(body),
    }
}

/// Decodes a response: the JSON value of a success body (its typed reading
/// is the caller's, through serde), a `Deserialization`
/// error when that body is not JSON, and the service's error for any other
/// status.
pub fn decode_response(status: u16, body: &[u8]) -> (r: Result<serde_json::Value, OpenAIError>)
    ensures
        is_success_spec(status) ==> (r is Ok <==> json_parses(body@)),
        r matches Ok(v) ==> v == json_value_of(body@),
        is_success_spec(status) ==> (r matches Err(e) ==> e is Deserialization),
        !is_success_spec(status) ==> (r matches Err(e) && error_of_response(status, body@, e)),
{
    if is_success(status) {
        match parse_json(body) {
            Ok(v) => Ok(v),
            Err(e) => Err(OpenAIError::Deserialization(json_error_text(&e))),
        }
    } else {
        let message = json_string_at(body, "/error/message");
        let error_type = json_string_at(body, "/error/type");
        let param = json_string_at(body, "/error/param");
        let code = json_string_at(body, "/error/code");
        Err(api_error(status, lossy_text(body), message, error_type, param, code))
    }
}

} // verus!
