use vstd::prelude::*;
use crate::error::ClientError;
use crate::json::{parse_json, parsed_json, string_json, string_value};

verus! {

/// A status code in the 2xx range.
pub open spec fn is_success(status: u16) -> bool {
    200 <= status && status < 300
}

/// What a call yields for a response, given what reading its text as JSON
/// gave (`None` where the text is no JSON document).
pub open spec fn outcome_given(status: u16, text: String, parsed: Option<serde_json::Value>) -> Result<
    serde_json::Value,
    ClientError,
> {
    if is_success(status) {
        match parsed {
            Some(v) => Ok(v),
            None => Ok(string_json(text@)),
        }
    } else {
        Err(ClientError::RequestFailed(text))
    }
}

/// What a call yields for a response with this status and text.
pub open spec fn response_outcome(status: u16, text: String) -> Result<serde_json::Value, ClientError> {
    outcome_given(status, text, parsed_json(text@))
}

pub fn status_is_success(status: u16) -> (r: bool)
    ensures
        r == is_success(status),
{
    200 <= status && status < 300
}

/// Turns a response into the call's result, given the parsed body: the parsed
/// value on success, the text as a JSON string on success with a body that is
/// no JSON, and `RequestFailed` with the text on any other status.
pub fn interpret(status: u16, text: String, parsed: Option<serde_json::Value>) -> (r: Result<
    serde_json::Value,
    ClientError,
>)
    ensures
        r == outcome_given(status, text, parsed),
{
    if status_is_success(status) {
        match parsed {
            Some(v) => Ok(v),
            None => Ok(string_value(text)),
        }
    } else {
        Err(ClientError::RequestFailed(text))
    }
}

/// Turns a response into the call's result: the body is read as JSON only
/// when the status is a success.
pub fn interpret_response(status: u16, text: String) -> (r: Result<serde_json::Value, ClientError>)
    ensures
        r == response_outcome(status, text),
{
    if status_is_success(status) {
        let parsed = match parse_json(text.as_str()) {
            Ok(v) => Some(v),
            Err(_) => None,
        };
        interpret(status, text, parsed)
    } else {
        Err(ClientError::RequestFailed(text))
    }
}

/// Equal responses give equal results: the client keeps no state of its own
/// between calls that could make a repeated call differ.
pub proof fn lemma_repeatable_result(status: u16, text: String, r1: Result<serde_json::Value, ClientError>, r2: Result<serde_json::Value, ClientError>)
    requires
        r1 == response_outcome(status, text),
        r2 == response_outcome(status, text),
    ensures
        r1 == r2,
{
}

} // verus!
