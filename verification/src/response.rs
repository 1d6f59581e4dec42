//! The response classifier: maps an HTTP status code, the parsed retry
//! hint, and (for status 200) the response body onto either a delivery
//! response or a typed error. The decision table is stated once, as
//! [`classify_spec`], and every executable path is proved against it.

use vstd::prelude::*;
use vstd::string::StringExecFns;

use crate::json::{as_str_of, as_u64_of, get_of, is_null_of, is_object_of, json_as_string,
    json_as_u64, json_get, json_is_null, json_is_object, json_of, json_parse};
use crate::retry::{retry_after_spec, RetryAfter};

verus! {

/// Mathematical model of an application-level error reason.
pub enum ErrorReasonView {
    Unavailable,
    InternalServerError,
    Other(Seq<char>),
}

/// Mathematical model of a delivery response.
pub struct FcmResponseView {
    pub message_id: Option<u64>,
    pub error: Option<ErrorReasonView>,
    pub raw_body: Seq<char>,
}

/// Mathematical model of a delivery error.
pub enum FcmErrorView {
    InvalidMessage(Seq<char>),
    Unauthorized,
    ServerError(Option<RetryAfter>),
}

/// An application-level error reason embedded in a 200-status body. Only
/// `Unavailable` and `InternalServerError` are significant to
/// classification: they mark the response as a transient server error.
/// Every other reason is carried through unchanged.
#[derive(Clone, Debug)]
pub enum ErrorReason {
    Unavailable,
    InternalServerError,
    Other(String),
}

/// The deserialized body of a 200-status response: the optional
/// application-level error reason, and the provider's message id where
/// one was given. The raw body text is carried alongside, so the
/// provider's further delivery metadata (per-recipient results and the
/// like) passes through to the caller untouched.
#[derive(Clone, Debug)]
pub struct FcmResponse {
    pub message_id: Option<u64>,
    pub error: Option<ErrorReason>,
    pub raw_body: String,
}

/// The error taxonomy of a send. `ServerError` outcomes are transient
/// and carry the retry hint where the server gave one; the others are
/// terminal without a change by the caller.
#[derive(Clone, Debug)]
pub enum FcmError {
    InvalidMessage(String),
    Unauthorized,
    ServerError(Option<RetryAfter>),
}

impl View for ErrorReason {
    type V = ErrorReasonView;

    open spec fn view(&self) -> ErrorReasonView {
        match self {
            ErrorReason::Unavailable => ErrorReasonView::Unavailable,
            ErrorReason::InternalServerError => ErrorReasonView::InternalServerError,
            ErrorReason::Other(s) => ErrorReasonView::Other(s@),
        }
    }
}

impl View for FcmResponse {
    type V = FcmResponseView;

    open spec fn view(&self) -> FcmResponseView {
        FcmResponseView {
            message_id: self.message_id,
            error: match self.error {
                Some(r) => Some(r@),
                None => None,
            },
            raw_body: self.raw_body@,
        }
    }
}

impl View for FcmError {
    type V = FcmErrorView;

    open spec fn view(&self) -> FcmErrorView {
        match self {
            FcmError::InvalidMessage(s) => FcmErrorView::InvalidMessage(s@),
            FcmError::Unauthorized => FcmErrorView::Unauthorized,
            FcmError::ServerError(ra) => FcmErrorView::ServerError(*ra),
        }
    }
}

impl PartialEq for ErrorReason {
    fn eq(&self, other: &Self) -> (r: bool) {
        match (self, other) {
            (ErrorReason::Unavailable, ErrorReason::Unavailable) => true,
            (ErrorReason::InternalServerError, ErrorReason::InternalServerError) => true,
            (ErrorReason::Other(a), ErrorReason::Other(b)) => *a == *b,
            _ => false,
        }
    }
}

impl vstd::std_specs::cmp::PartialEqSpecImpl for ErrorReason {
    open spec fn obeys_eq_spec() -> bool {
        true
    }

    open spec fn eq_spec(&self, other: &Self) -> bool {
        self@ == other@
    }
}

impl PartialEq for FcmResponse {
    fn eq(&self, other: &Self) -> (r: bool) {
        let mid_eq = match (self.message_id, other.message_id) {
            (None, None) => true,
            (Some(a), Some(b)) => a == b,
            _ => false,
        };
        let err_eq = match (&self.error, &other.error) {
            (None, None) => true,
            (Some(a), Some(b)) => a == b,
            _ => false,
        };
        mid_eq && err_eq && self.raw_body == other.raw_body
    }
}

impl vstd::std_specs::cmp::PartialEqSpecImpl for FcmResponse {
    open spec fn obeys_eq_spec() -> bool {
        true
    }

    open spec fn eq_spec(&self, other: &Self) -> bool {
        self@ == other@
    }
}

impl PartialEq for FcmError {
    fn eq(&self, other: &Self) -> (r: bool) {
        match (self, other) {
            (FcmError::InvalidMessage(a), FcmError::InvalidMessage(b)) => *a == *b,
            (FcmError::Unauthorized, FcmError::Unauthorized) => true,
            (FcmError::ServerError(a), FcmError::ServerError(b)) => match (a, b) {
                (None, None) => true,
                (Some(x), Some(y)) => *x == *y,
                _ => false,
            },
            _ => false,
        }
    }
}

impl vstd::std_specs::cmp::PartialEqSpecImpl for FcmError {
    open spec fn obeys_eq_spec() -> bool {
        true
    }

    open spec fn eq_spec(&self, other: &Self) -> bool {
        self@ == other@
    }
}

/// An embedded error reason that marks a 200-status response as a
/// transient server failure.
pub open spec fn retryable_reason(e: Option<ErrorReasonView>) -> bool {
    e matches Some(r) && (r is Unavailable || r is InternalServerError)
}

/// The decision table over a response: status code first, then (for 200)
/// the parsed body and its embedded error reason. `body` is `None` when
/// the body did not parse as a delivery response.
pub open spec fn classify_spec(
    status: int,
    retry: Option<RetryAfter>,
    body: Option<FcmResponseView>,
) -> Result<FcmResponseView, FcmErrorView> {
    if status == 200 {
        match body {
            Some(resp) => if retryable_reason(resp.error) {
                Err(FcmErrorView::ServerError(retry))
            } else {
                Ok(resp)
            },
            None => Err(FcmErrorView::InvalidMessage("Unknown Error"@)),
        }
    } else if status == 401 {
        Err(FcmErrorView::Unauthorized)
    } else if status == 400 {
        Err(FcmErrorView::InvalidMessage("Bad Request"@))
    } else if 500 <= status && status < 600 {
        Err(FcmErrorView::ServerError(retry))
    } else {
        Err(FcmErrorView::InvalidMessage("Unknown Error"@))
    }
}

pub open spec fn result_view(r: Result<FcmResponse, FcmError>) -> Result<
    FcmResponseView,
    FcmErrorView,
> {
    match r {
        Ok(resp) => Ok(resp@),
        Err(e) => Err(e@),
    }
}

pub open spec fn opt_response_view(b: Option<FcmResponse>) -> Option<FcmResponseView> {
    match b {
        Some(resp) => Some(resp@),
        None => None,
    }
}

/// What an embedded `error` string denotes: one of the two significant
/// reasons, or any other reason carried through verbatim.
pub open spec fn reason_of(s: Seq<char>) -> ErrorReasonView {
    if s == "Unavailable"@ {
        ErrorReasonView::Unavailable
    } else if s == "InternalServerError"@ {
        ErrorReasonView::InternalServerError
    } else {
        ErrorReasonView::Other(s)
    }
}

impl ErrorReason {
    /// Read an embedded `error` string as a reason.
    pub fn from_string(s: String) -> (r: ErrorReason)
        ensures
            r@ == reason_of(s@),
    {
        if s == String::from_str("Unavailable") {
            ErrorReason::Unavailable
        } else if s == String::from_str("InternalServerError") {
            ErrorReason::InternalServerError
        } else {
            ErrorReason::Other(s)
        }
    }
}

/// The error reason a JSON object carries: `Some(None)` when the `error`
/// field is absent or null, `Some(Some(..))` when it is a string, `None`
/// (malformed) when it is any other kind of value.
pub open spec fn error_reason_of(v: serde_json::Value) -> Option<Option<ErrorReasonView>> {
    match get_of(v, "error"@) {
        None => Some(None),
        Some(ev) => if is_null_of(ev) {
            Some(None)
        } else {
            match as_str_of(ev) {
                Some(text) => Some(Some(reason_of(text))),
                None => None,
            }
        },
    }
}

/// The message id a JSON object carries: `Some(None)` when the
/// `message_id` field is absent or null, `Some(Some(..))` when it is a
/// non-negative integer fitting u64, `None` (malformed) otherwise.
pub open spec fn message_id_of(v: serde_json::Value) -> Option<Option<u64>> {
    match get_of(v, "message_id"@) {
        None => Some(None),
        Some(mv) => if is_null_of(mv) {
            Some(None)
        } else {
            match as_u64_of(mv) {
                Some(n) => Some(Some(n)),
                None => None,
            }
        },
    }
}

/// What a 200-status body text denotes as a delivery response: a JSON
/// object with well-typed `error` and `message_id` fields, carried with
/// the raw text; `None` for anything else, malformed JSON included.
pub open spec fn response_of(s: Seq<char>) -> Option<FcmResponseView> {
    match json_of(s) {
        None => None,
        Some(v) => if !is_object_of(v) {
            None
        } else {
            match (error_reason_of(v), message_id_of(v)) {
                (Some(error), Some(message_id)) => Some(
                    FcmResponseView { message_id, error, raw_body: s },
                ),
                _ => None,
            }
        },
    }
}

/// Read a 200-status body as a delivery response: a JSON object whose
/// `error` field, if present, is a string or null, and whose
/// `message_id` field, if present, is a non-negative integer or null.
/// `None` for anything else, malformed JSON included. Exactly
/// [`response_of`] on the text.
pub fn parse_body(s: &str) -> (r: Option<FcmResponse>)
    ensures
        opt_response_view(r) == response_of(s@),
{
    let doc = match json_parse(s) {
        Some(v) => v,
        None => {
            return None;
        },
    };
    if !json_is_object(&doc) {
        return None;
    }
    let error = match json_get(&doc, "error") {
        None => None,
        Some(ev) => {
            if json_is_null(ev) {
                None
            } else {
                match json_as_string(ev) {
                    Some(text) => Some(ErrorReason::from_string(text)),
                    None => {
                        return None;
                    },
                }
            }
        },
    };
    let message_id = match json_get(&doc, "message_id") {
        None => None,
        Some(mv) => {
            if json_is_null(mv) {
                None
            } else {
                match json_as_u64(mv) {
                    Some(n) => Some(n),
                    None => {
                        return None;
                    },
                }
            }
        },
    };
    Some(FcmResponse { message_id, error, raw_body: s.to_owned() })
}

/// Classify a response from its status code, parsed retry hint, and (for
/// status 200) the parsed body. Exactly the decision table of
/// [`classify_spec`].
pub fn classify(status: u16, retry_after: Option<RetryAfter>, body: Option<FcmResponse>) -> (r:
    Result<FcmResponse, FcmError>)
    ensures
        result_view(r) == classify_spec(status as int, retry_after, opt_response_view(body)),
{
    if status == 200 {
        match body {
            Some(resp) => {
                let retryable = match &resp.error {
                    Some(ErrorReason::Unavailable) => true,
                    Some(ErrorReason::InternalServerError) => true,
                    _ => false,
                };
                if retryable {
                    Err(FcmError::ServerError(retry_after))
                } else {
                    Ok(resp)
                }
            },
            None => Err(FcmError::InvalidMessage(String::from_str("Unknown Error"))),
        }
    } else if status == 401 {
        Err(FcmError::Unauthorized)
    } else if status == 400 {
        Err(FcmError::InvalidMessage(String::from_str("Bad Request")))
    } else if 500 <= status && status < 600 {
        Err(FcmError::ServerError(retry_after))
    } else {
        Err(FcmError::InvalidMessage(String::from_str("Unknown Error")))
    }
}

/// The text an optional raw header or body holds.
pub open spec fn opt_text_view(t: Option<&str>) -> Option<Seq<char>> {
    match t {
        Some(s) => Some(s@),
        None => None,
    }
}

/// The whole classification pipeline over a response triple: an absent
/// (unreadable or undecodable) body is an unintelligible response
/// whatever the status; otherwise the retry hint is read from the header
/// and the decision table is applied, with the body parsed as a delivery
/// response only where a 200 status makes it meaningful.
pub open spec fn classify_response_spec(
    status: int,
    retry_after_header: Option<Seq<char>>,
    body: Option<Seq<char>>,
) -> Result<FcmResponseView, FcmErrorView> {
    let retry = match retry_after_header {
        Some(h) => retry_after_spec(h),
        None => None,
    };
    match body {
        None => Err(FcmErrorView::InvalidMessage("Unknown Error"@)),
        Some(b) => classify_spec(
            status,
            retry,
            if status == 200 {
                response_of(b)
            } else {
                None
            },
        ),
    }
}

/// Classify a full response. `retry_after_header` is the raw value of the
/// `retry-after` header if the response carried one; `body` is the
/// UTF-8-decoded response body, `None` when it could not be read or
/// decoded. Exactly [`classify_response_spec`] on the triple.
pub fn classify_response(status: u16, retry_after_header: Option<&str>, body: Option<&str>) -> (r:
    Result<FcmResponse, FcmError>)
    ensures
        result_view(r) == classify_response_spec(
            status as int,
            opt_text_view(retry_after_header),
            opt_text_view(body),
        ),
{
    let retry = match retry_after_header {
        Some(h) => RetryAfter::from_str(h),
        None => None,
    };
    match body {
        None => Err(FcmError::InvalidMessage(String::from_str("Unknown Error"))),
        Some(text) => {
            let parsed = if status == 200 {
                parse_body(text)
            } else {
                None
            };
            classify(status, retry, parsed)
        },
    }
}

/// The classification of a transport-level failure: no response was
/// received, so the outcome is a transient server error with no retry
/// hint.
pub fn transport_error() -> (r: FcmError)
    ensures
        r@ == FcmErrorView::ServerError(None),
{
    FcmError::ServerError(None)
}

/// A delivery response is only ever returned for a 200 status whose body
/// parsed and whose embedded error reason is neither `Unavailable` nor
/// `InternalServerError`.
pub proof fn lemma_success_requires_clean_200(
    status: int,
    retry: Option<RetryAfter>,
    body: Option<FcmResponseView>,
)
    ensures
        classify_spec(status, retry, body) matches Ok(resp) ==> status == 200 && body == Some(resp)
            && !retryable_reason(resp.error),
{
}

/// Classification is a pure function of the response triple: two
/// classifications of the same status, raw retry-after header and raw
/// body are the same outcome.
pub proof fn lemma_classification_deterministic(
    status: int,
    retry_after_header: Option<Seq<char>>,
    body: Option<Seq<char>>,
    r1: Result<FcmResponseView, FcmErrorView>,
    r2: Result<FcmResponseView, FcmErrorView>,
)
    requires
        r1 == classify_response_spec(status, retry_after_header, body),
        r2 == classify_response_spec(status, retry_after_header, body),
    ensures
        r1 == r2,
{
}

} // verus!
