//! The fallback middleware: the last step of every request.
//!
//! A handler that produced a body passes through unchanged. One that
//! produced none gets a synthesized JSON body: the canonical reason phrase
//! of the status it set, a message naming the raw numeric status when the
//! phrase is unknown, or a fixed 500 message when no status was ever set.
//! This guarantees that every response, a routing miss included, carries a
//! JSON body.

use vstd::prelude::*;
use vstd::string::StringExecFns;

use crate::json::dec_string;
use crate::json::json_string;
use crate::json::spec_dec_digits;
use crate::json::spec_json_string;

verus! {

/// An HTTP response as the middleware sees it: the status code a handler
/// set, if any, and the body it wrote — empty when it wrote none.
pub struct HttpResponse {
    pub status_code: Option<u16>,
    pub body: String,
}

/// The canonical reason phrase of a status code: the fixed table that the
/// HTTP library keeps, keyed by the numeric code alone.
pub uninterp spec fn spec_reason_phrase(code: u16) -> Option<Seq<char>>;

/// Relies on `http::StatusCode::canonical_reason`: the reason phrase is a
/// fixed table over the numeric code alone, with `None` for codes outside
/// it; the table sends 200, 201, 400, 404, 405 and 500 to the phrases
/// stated below. `from_u16` only converts the argument and rejects codes
/// outside 100..=999, none of which has a phrase in the table.
#[verifier::external_body]
fn reason_phrase(code: u16) -> (r: Option<String>)
    ensures
        r.deep_view() == spec_reason_phrase(code),
        code == 200 ==> r.deep_view() == Some("OK"@),
        code == 201 ==> r.deep_view() == Some("Created"@),
        code == 400 ==> r.deep_view() == Some("Bad Request"@),
        code == 404 ==> r.deep_view() == Some("Not Found"@),
        code == 405 ==> r.deep_view() == Some("Method Not Allowed"@),
        code == 500 ==> r.deep_view() == Some("Internal Server Error"@),
{
    match http::StatusCode::from_u16(code) {
        Ok(status) => status.canonical_reason().map(|p| p.to_string()),
        Err(_) => None,
    }
}

/// The message synthesized for an empty body under a status whose reason
/// phrase is unknown.
pub open spec fn spec_unknown_status_message(code: u16) -> Seq<char> {
    "empty result with unknown status: "@ + spec_dec_digits(code as nat)
}

/// The body the middleware synthesizes for an empty response with a status:
/// the reason phrase as a JSON string, or the unknown-status message.
pub open spec fn spec_fallback_body(code: u16) -> Seq<char> {
    match spec_reason_phrase(code) {
        Some(p) => spec_json_string(p),
        None => spec_json_string(spec_unknown_status_message(code)),
    }
}

/// The fixed body for a response that never set a status.
pub open spec fn spec_no_data_body() -> Seq<char> {
    spec_json_string("server did not return any valid data"@)
}

/// Rewrites an empty response body into a JSON message; leaves any response
/// that already carries a body untouched.
pub fn default_response_middleware(res: &mut HttpResponse)
    ensures
        old(res).body@.len() > 0 ==> *final(res) == *old(res),
        old(res).body@.len() == 0 && old(res).status_code == Some(crate::STATUS_NOT_FOUND)
            ==> final(res).body@ == spec_json_string("Not Found"@),
        old(res).body@.len() == 0 ==> match old(res).status_code {
            Some(code) => final(res).status_code == Some(code) && final(res).body@
                == spec_fallback_body(code),
            None => final(res).status_code == Some(crate::STATUS_INTERNAL_SERVER_ERROR)
                && final(res).body@ == spec_no_data_body(),
        },
{
    if !res.body.as_str().is_empty() {
        return ;
    }
    match res.status_code {
        Some(code) => {
            match reason_phrase(code) {
                Some(p) => {
                    res.body = json_string(p.as_str());
                },
                None => {
                    let mut msg = String::from_str("empty result with unknown status: ");
                    let digits = dec_string(code);
                    msg.append(digits.as_str());
                    res.body = json_string(msg.as_str());
                },
            }
        },
        None => {
            res.status_code = Some(crate::STATUS_INTERNAL_SERVER_ERROR);
            res.body = json_string("server did not return any valid data");
        },
    }
}

} // verus!
