//! The uniform response envelope: a status code and a JSON-serializable
//! payload, used for success and error paths alike.

use vstd::prelude::*;
use vstd::string::StringExecFns;

verus! {

/// A response envelope. The body of the HTTP response is exactly the JSON
/// rendering of `content`; the status code travels only in the status line.
pub struct AppResponse<T> {
    pub status_code: u16,
    pub content: T,
}

impl<T> AppResponse<T> {
    /// An envelope with an arbitrary status code.
    pub fn new(status_code: u16, content: T) -> (r: AppResponse<T>)
        ensures
            r.status_code == status_code,
            r.content == content,
    {
        AppResponse { status_code, content }
    }

    /// A 200 envelope.
    pub fn ok(content: T) -> (r: AppResponse<T>)
        ensures
            r.status_code == crate::STATUS_OK,
            r.content == content,
    {
        AppResponse { status_code: crate::STATUS_OK, content }
    }

    /// A 400 envelope.
    pub fn bad_request(content: T) -> (r: AppResponse<T>)
        ensures
            r.status_code == crate::STATUS_BAD_REQUEST,
            r.content == content,
    {
        AppResponse { status_code: crate::STATUS_BAD_REQUEST, content }
    }

    /// A 500 envelope.
    pub fn internal_server_error(content: T) -> (r: AppResponse<T>)
        ensures
            r.status_code == crate::STATUS_INTERNAL_SERVER_ERROR,
            r.content == content,
    {
        AppResponse { status_code: crate::STATUS_INTERNAL_SERVER_ERROR, content }
    }
}

/// The message of the 500 envelope: the fixed generic message, with the
/// error detail appended when the configuration exposes it.
pub open spec fn spec_error_message(detail: Seq<char>, expose_detail: bool) -> Seq<char> {
    if expose_detail {
        "unhandled server error: "@ + detail
    } else {
        "unhandled server error"@
    }
}

/// Maps an unhandled store error into the uniform 500 envelope. Whether the
/// raw error text is exposed or replaced by the generic message is decided
/// by the configuration flag the caller hands in.
pub fn error_response(detail: &str, expose_detail: bool) -> (r: AppResponse<String>)
    ensures
        r.status_code == crate::STATUS_INTERNAL_SERVER_ERROR,
        r.content@ == spec_error_message(detail@, expose_detail),
{
    if expose_detail {
        let mut msg = String::from_str("unhandled server error: ");
        msg.append(detail);
        AppResponse::internal_server_error(msg)
    } else {
        AppResponse::internal_server_error(String::from_str("unhandled server error"))
    }
}

} // verus!
