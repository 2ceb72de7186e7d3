//! The uniform response envelope and the envelope-producing handlers.
//!
//! Every business HTTP response leaving the process is an [`ApiBody`]:
//! `code == 0` exactly when the operation succeeded, and a nonzero code
//! never carries data. The fallback and error handlers here pin down the
//! one 404 exception and the generic failure mapping.

use vstd::prelude::*;
use vstd::string::StringExecFns;

verus! {

/// The wire-level envelope `{code, message, data}` of every business response.
#[derive(Debug, Clone)]
pub struct ApiBody<T> {
    pub code: i32,
    pub message: String,
    pub data: Option<T>,
}

/// The message of the fallback response for an unmatched route:
/// `"<METHOD> <PATH> Not Found"`.
pub open spec fn not_found_text(method: Seq<char>, path: Seq<char>) -> Seq<char> {
    method + " "@ + path + " Not Found"@
}

/// The message of the generic failure response: `"<METHOD> <PATH> failed"`.
pub open spec fn failed_text(method: Seq<char>, path: Seq<char>) -> Seq<char> {
    method + " "@ + path + " failed"@
}

impl<T> ApiBody<T> {
    pub fn new(code: i32, message: String, data: Option<T>) -> (r: ApiBody<T>)
        ensures
            r.code == code,
            r.message == message,
            r.data == data,
    {
        ApiBody { code, message, data }
    }

    /// The success envelope: code 0, message `"success"`.
    pub fn success(data: Option<T>) -> (r: ApiBody<T>)
        ensures
            r.code == 0,
            r.message@ == "success"@,
            r.data == data,
    {
        ApiBody { code: 0, message: String::from_str("success"), data }
    }

    /// A failure envelope: nonzero code, no data.
    pub fn failure(code: i32, message: String) -> (r: ApiBody<T>)
        ensures
            r.code == code,
            r.message == message,
            r.data is None,
    {
        ApiBody { code, message, data: None }
    }

    /// The envelope-to-status mapping of the generic path: a handler
    /// envelope with code 0 is served as HTTP 200, any other code as
    /// HTTP 500. The envelope itself is passed through unchanged.
    pub fn into_response(self) -> (r: (u16, ApiBody<T>))
        ensures
            self.code == 0 ==> r.0 == 200u16,
            self.code != 0 ==> r.0 == 500u16,
            r.1 == self,
    {
        let status: u16 = if self.code == 0 {
            200
        } else {
            500
        };
        (status, self)
    }
}

/// The fallback for unmatched routes: HTTP 404 and the envelope
/// `{code: -1, message: "<METHOD> <PATH> Not Found", data: null}`.
pub fn handler_404(method: &str, uri: &str) -> (r: (u16, ApiBody<String>))
    ensures
        r.0 == 404u16,
        r.1.code == -1,
        r.1.message@ == not_found_text(method@, uri@),
        r.1.data is None,
{
    let mut message = String::from_str(method);
    message.append(" ");
    message.append(uri);
    message.append(" Not Found");
    (404, ApiBody::failure(-1, message))
}

/// The generic error mapping: any failure surfaced by an inner layer
/// (the per-request timeout included) becomes HTTP 500 and the envelope
/// `{code: -1, message: "<METHOD> <PATH> failed", data: <description>}`.
/// No raw internal error ever reaches the wire.
pub fn handle_error(method: &str, uri: &str, err: String) -> (r: (u16, ApiBody<String>))
    ensures
        r.0 == 500u16,
        r.1.code == -1,
        r.1.message@ == failed_text(method@, uri@),
        r.1.data matches Some(d) && d == err,
{
    let mut message = String::from_str(method);
    message.append(" ");
    message.append(uri);
    message.append(" failed");
    (500, ApiBody::new(-1, message, Some(err)))
}

/// The root business handler: a constant greeting under the success envelope.
pub fn index() -> (r: ApiBody<String>)
    ensures
        r.code == 0,
        r.message@ == "success"@,
        r.data matches Some(d) && d@ == "Hello World"@,
{
    ApiBody::success(Some(String::from_str("Hello World")))
}

/// The users business handler; like the root handler it answers with the
/// constant greeting under the success envelope.
pub fn get_users() -> (r: ApiBody<String>)
    ensures
        r.code == 0,
        r.message@ == "success"@,
        r.data matches Some(d) && d@ == "Hello World"@,
{
    ApiBody::success(Some(String::from_str("Hello World")))
}

/// Marker for the machine-readable API documentation mounted beside the
/// business routes; its rendering is an external-tooling concern.
pub struct ApiDoc;

} // verus!
