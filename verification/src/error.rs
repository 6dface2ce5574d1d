//! A flat, message-only error for callers that want a single string.

use vstd::prelude::*;

verus! {

/// An error holding one rendered message.
#[derive(Debug)]
pub struct Error(String);

impl View for Error {
    type V = Seq<char>;

    closed spec fn view(&self) -> Seq<char> {
        self.0@
    }
}

impl Error {
    /// The message this error carries.
    pub fn message(&self) -> (r: &String)
        ensures
            r@ == self@,
    {
        &self.0
    }
}

/// The error reported when a JSON body could not be parsed.
pub fn failed_to_parse_json(msg: &str) -> (r: Error)
    ensures
        r@ == "[fred_app:01] Failed to parse JSON with error ["@ + msg@ + "]."@,
{
    let s = "[fred_app:01] Failed to parse JSON with error [".to_owned().concat(msg).concat("].");
    Error(s)
}

/// The error reported when the HTTP request itself failed.
pub fn failed_http_request(msg: &str) -> (r: Error)
    ensures
        r@ == "[fred_api:02]] Http request failed with error ["@ + msg@ + "]."@,
{
    let s = "[fred_api:02]] Http request failed with error [".to_owned().concat(msg).concat("].");
    Error(s)
}

} // verus!
