//! The message a caller hands to the client: an API key and an arbitrary
//! JSON notification payload. The payload is opaque to this library; only
//! the key takes part in verified logic (header construction).

use vstd::prelude::*;

verus! {

/// A notification message: the credential to present and the JSON body to
/// deliver. Built by the caller, consumed once per send.
pub struct Message {
    pub api_key: String,
    pub body: serde_json::Value,
}

impl Message {
    pub fn new(api_key: String, body: serde_json::Value) -> (r: Message)
        ensures
            r.api_key@ == api_key@,
            r.body == body,
    {
        Message { api_key, body }
    }
}

} // verus!
