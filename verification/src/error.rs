//! Error types for the WhatsApp Cloud API SDK, and the classifier that
//! turns a raw failed HTTP response into one of them.

use vstd::prelude::*;
use crate::json;

verus! {

/// Errors that can occur when using the WhatsApp Cloud API.
///
/// The classifying variants form a closed taxonomy derived from the vendor
/// error envelope: `InvalidToken`, `RateLimited` and `Api` (the generic
/// carrier of code, message, subcode and detail).  `Json` reports text that
/// is not JSON at all; `Envelope` reports JSON that lacks a required field
/// of an expected envelope (the string names that field).
#[derive(Debug)]
pub enum Error {
    /// JSON deserialization error, carrying the parser's description
    Json(String),
    /// Structurally valid JSON that does not match the expected envelope
    Envelope(String),
    /// API error returned by WhatsApp Cloud API
    Api {
        code: i32,
        message: String,
        error_subcode: Option<i32>,
        error_data: Option<ApiErrorData>,
    },
    /// Rate limit exceeded
    RateLimited { retry_after: Option<u64> },
    /// Invalid access token
    InvalidToken,
}

/// Additional error data from the API
#[derive(Debug, Clone, PartialEq)]
pub struct ApiErrorData {
    /// Messaging product (always "whatsapp")
    pub messaging_product: Option<String>,
    /// Details about the error
    pub details: Option<String>,
}

/// Error response from the WhatsApp Cloud API
#[derive(Debug, Clone)]
pub struct ApiErrorResponse {
    /// Error object
    pub error: ApiError,
}

/// Error object from the API
#[derive(Debug, Clone)]
pub struct ApiError {
    /// Error message
    pub message: String,
    /// Error type
    pub error_type: Option<String>,
    /// Error code
    pub code: i32,
    /// Error subcode
    pub error_subcode: Option<i32>,
    /// Error user title
    pub error_user_title: Option<String>,
    /// Error user message
    pub error_user_msg: Option<String>,
    /// Facebook trace ID
    pub fbtrace_id: Option<String>,
    /// Additional error data
    pub error_data: Option<ApiErrorData>,
}

/// Whether a vendor error code signals rate limiting.
pub open spec fn is_rate_limit_code(code: i32) -> bool {
    code == 4 || code == 17 || code == 32 || code == 613
}

/// The classification of a parsed vendor error object: a pure function of
/// the error code alone, never of the message text.
pub open spec fn classification_of(err: ApiError) -> Error {
    if err.code == 190 {
        Error::InvalidToken
    } else if is_rate_limit_code(err.code) {
        Error::RateLimited { retry_after: None }
    } else {
        Error::Api {
            code: err.code,
            message: err.message,
            error_subcode: err.error_subcode,
            error_data: err.error_data,
        }
    }
}

impl From<ApiErrorResponse> for Error {
    /// Classify a vendor error envelope by its error code.
    fn from(response: ApiErrorResponse) -> (r: Self)
        ensures
            r == classification_of(response.error),
    {
        let err = response.error;

        if err.code == 190 {
            Error::InvalidToken
        } else if err.code == 4 || err.code == 17 || err.code == 32 || err.code == 613 {
            Error::RateLimited { retry_after: None }
        } else {
            Error::Api {
                code: err.code,
                message: err.message,
                error_subcode: err.error_subcode,
                error_data: err.error_data,
            }
        }
    }
}

impl vstd::std_specs::convert::FromSpecImpl<ApiErrorResponse> for Error {
    open spec fn obeys_from_spec() -> bool {
        true
    }

    open spec fn from_spec(response: ApiErrorResponse) -> Error {
        classification_of(response.error)
    }
}

/// The classification of a failed HTTP response whose body text views as
/// `body` and parsed as `parsed`: the envelope's classification when the
/// body was the vendor error envelope, otherwise a generic error carrying
/// the HTTP status and the raw body text verbatim.
pub open spec fn response_classification(
    status: u16,
    body: Seq<char>,
    parsed: Option<ApiErrorResponse>,
    r: Error,
) -> bool {
    match parsed {
        Some(response) => r == classification_of(response.error),
        None => r matches Error::Api { code, message, error_subcode, error_data }
            && code == status as i32 && message@ == body && error_subcode is None
            && error_data is None,
    }
}

/// Classify a failed HTTP response given the result of parsing its body as
/// the vendor error envelope.
pub fn classify_parsed(status: u16, body: String, parsed: Option<ApiErrorResponse>) -> (r: Error)
    ensures
        response_classification(status, body@, parsed, r),
{
    match parsed {
        Some(response) => Error::from(response),
        None => Error::Api {
            code: status as i32,
            message: body,
            error_subcode: None,
            error_data: None,
        },
    }
}

impl ApiErrorResponse {
    /// Parse a response body as the vendor error envelope
    /// `{"error": {"message", "code", ...}}`; `None` when the body is not
    /// JSON or does not carry that envelope.
    pub fn from_json(body: &str) -> (r: Option<ApiErrorResponse>)
        ensures
            !json::parses_as_json(body@) ==> r is None,
    {
        let v = match json::parse_value(body) {
            Ok(v) => v,
            Err(_) => return None,
        };
        let err = match json::value_get(&v, "error") {
            Some(e) => e,
            None => return None,
        };
        let message = match json::get_string(err, "message") {
            Some(m) => m,
            None => return None,
        };
        let code = match json::field_i32(err, "code") {
            Ok(c) => c,
            Err(()) => return None,
        };
        let error_type = match json::field_opt_string(err, "type") {
            Ok(t) => t,
            Err(()) => return None,
        };
        let error_subcode = match json::field_opt_i32(err, "error_subcode") {
            Ok(s) => s,
            Err(()) => return None,
        };
        let error_user_title = match json::field_opt_string(err, "error_user_title") {
            Ok(t) => t,
            Err(()) => return None,
        };
        let error_user_msg = match json::field_opt_string(err, "error_user_msg") {
            Ok(m) => m,
            Err(()) => return None,
        };
        let fbtrace_id = match json::field_opt_string(err, "fbtrace_id") {
            Ok(f) => f,
            Err(()) => return None,
        };
        let error_data = match json::value_get(err, "error_data") {
            Some(d) => match api_error_data_from_value(d) {
                Ok(data) => data,
                Err(()) => return None,
            },
            None => None,
        };
        Some(ApiErrorResponse {
            error: ApiError {
                message,
                error_type,
                code,
                error_subcode,
                error_user_title,
                error_user_msg,
                fbtrace_id,
                error_data,
            },
        })
    }
}

/// Read an `error_data` object; `Ok(None)` when it is JSON null.
fn api_error_data_from_value(d: &serde_json::Value) -> Result<Option<ApiErrorData>, ()> {
    if json::value_is_null(d) {
        return Ok(None);
    }
    let messaging_product = match json::field_opt_string(d, "messaging_product") {
        Ok(m) => m,
        Err(()) => return Err(()),
    };
    let details = match json::field_opt_string(d, "details") {
        Ok(x) => x,
        Err(()) => return Err(()),
    };
    Ok(Some(ApiErrorData { messaging_product, details }))
}

/// Classify a failed HTTP response from its status and raw body: the body
/// is parsed as the vendor error envelope and classified by its error
/// code; a body of any other shape falls back to a generic error that
/// carries the HTTP status and the body text verbatim, so that no failure
/// information is discarded.  In particular, a body that is not JSON at
/// all always yields exactly that fallback.  Whatever the body, the
/// result is one of the three classifying variants, and a rate-limit
/// classification never invents a retry delay.
pub fn classify_response(status: u16, body: &str) -> (r: Error)
    ensures
        r is InvalidToken || r is RateLimited || r is Api,
        r matches Error::RateLimited { retry_after } ==> retry_after is None,
        !json::parses_as_json(body@) ==> (r matches Error::Api {
            code,
            message,
            error_subcode,
            error_data,
        } && code == status as i32 && message@ == body@ && error_subcode is None
            && error_data is None),
{
    let parsed = ApiErrorResponse::from_json(body);
    classify_parsed(status, body.to_owned(), parsed)
}

} // verus!
