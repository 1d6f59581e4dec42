//! The request builder: turns a [`Message`] into a well-formed POST
//! request to the fixed delivery endpoint, with the content-length header
//! equal to the exact byte length of the serialized body and the API key
//! carried in a `key=`-style authorization header.

use vstd::prelude::*;
use vstd::string::{StrSliceExecFns, StringExecFns};

use crate::json::{json_bytes_of, json_to_vec};
use crate::message::Message;
use crate::response::{FcmError, FcmErrorView};

verus! {

/// The fixed delivery endpoint every request is sent to.
pub open spec fn endpoint() -> Seq<char> {
    "https://fcm.googleapis.com/fcm/send"@
}

/// A character that may stand in an HTTP header value: horizontal tab,
/// or anything that is neither a control character nor delete. (Every
/// byte of a multi-byte character lies above the control range, so this
/// is exactly the header rule applied to the key's UTF-8 form.)
pub open spec fn valid_header_char(c: char) -> bool {
    c as int == 9 || (32 <= c as int && c as int != 127)
}

pub open spec fn valid_header_value(s: Seq<char>) -> bool {
    forall|i: int| 0 <= i < s.len() ==> valid_header_char(#[trigger] s[i])
}

/// An in-memory POST request to the delivery endpoint. Nothing here
/// performs I/O; a transport turns this value into a wire request.
pub struct HttpRequest {
    pub method: String,
    pub uri: String,
    pub content_type: String,
    pub content_length: usize,
    pub authorization: String,
    pub body: Vec<u8>,
}

/// The well-formed delivery request for a given API key and payload:
/// fixed method, endpoint and content type, a content-length equal to the
/// exact byte length of the payload, the key in the authorization
/// header, and the payload as the body.
pub open spec fn request_wf(req: HttpRequest, api_key: Seq<char>, payload: Seq<u8>) -> bool {
    &&& req.method@ == "POST"@
    &&& req.uri@ == endpoint()
    &&& req.content_type@ == "application/json; encoding=utf-8"@
    &&& req.content_length == payload.len()
    &&& req.authorization@ == "key="@ + api_key
    &&& req.body@ == payload
}

fn check_header_value(s: &str) -> (r: bool)
    ensures
        r == valid_header_value(s@),
{
    let n = s.unicode_len();
    let mut i: usize = 0;
    while i < n
        invariant
            0 <= i <= n,
            n == s@.len(),
            forall|j: int| 0 <= j < i ==> valid_header_char(#[trigger] s@[j]),
        decreases n - i,
    {
        let cv = s.get_char(i) as u32;
        if !(cv == 9 || (32 <= cv && cv != 127)) {
            assert(!valid_header_char(s@[i as int]));
            return false;
        }
        i = i + 1;
    }
    true
}

/// Build the delivery request around an already-serialized payload.
/// Succeeds exactly when the API key is legal in a header value.
pub fn build_request_parts(api_key: &str, payload: Vec<u8>) -> (r: Result<HttpRequest, FcmError>)
    ensures
        valid_header_value(api_key@) <==> r is Ok,
        r matches Ok(req) ==> request_wf(req, api_key@, payload@),
        r matches Err(e) ==> e@ == FcmErrorView::InvalidMessage("Can't build HTTP request"@),
{
    if !check_header_value(api_key) {
        return Err(FcmError::InvalidMessage(String::from_str("Can't build HTTP request")));
    }
    let authorization = String::from_str("key=").concat(api_key);
    let content_length = payload.len();
    Ok(
        HttpRequest {
            method: String::from_str("POST"),
            uri: String::from_str("https://fcm.googleapis.com/fcm/send"),
            content_type: String::from_str("application/json; encoding=utf-8"),
            content_length,
            authorization,
            body: payload,
        },
    )
}

/// Build the full delivery request from a message: serialize the JSON
/// body, then construct the request around the resulting bytes. Succeeds
/// exactly when the body serializes and the API key can stand in a
/// header value, and then the request carries exactly the serialized
/// bytes; otherwise the matching error comes back.
pub fn build_request(message: &Message) -> (r: Result<HttpRequest, FcmError>)
    ensures
        (json_bytes_of(message.body) is Some && valid_header_value(message.api_key@)) <==> r is Ok,
        r matches Ok(req) ==> request_wf(req, message.api_key@, json_bytes_of(message.body)->0),
        r matches Err(e) ==> (json_bytes_of(message.body) is None && e@
            == FcmErrorView::InvalidMessage("Can't serialise JSON"@)) || (json_bytes_of(
            message.body,
        ) is Some && !valid_header_value(message.api_key@) && e@ == FcmErrorView::InvalidMessage(
            "Can't build HTTP request"@,
        )),
{
    match json_to_vec(&message.body) {
        None => Err(FcmError::InvalidMessage(String::from_str("Can't serialise JSON"))),
        Some(payload) => build_request_parts(message.api_key.as_str(), payload),
    }
}

} // verus!
