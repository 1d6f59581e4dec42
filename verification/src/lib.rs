//! Client-side protocol logic for a push-notification delivery service.
//!
//! The library builds the outgoing request from a [`Message`], classifies a
//! response (status code, headers, body) into a success value or a typed
//! error, and parses the `retry-after` hint that accompanies transient
//! failures. All of that is pure logic over plain values; the HTTP
//! transport itself lives outside the library.

pub mod json;
pub mod message;
pub mod request;
pub mod response;
pub mod retry;

pub use json::json_wf;
pub use message::Message;
pub use request::{build_request, build_request_parts, HttpRequest};
pub use response::{classify, classify_response, parse_body, transport_error, ErrorReason,
    FcmError, FcmResponse};
pub use retry::{HttpDate, RetryAfter};

pub use response::FcmError as Error;
