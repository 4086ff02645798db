use vstd::prelude::*;
use vstd::string::StringExecFns;

use crate::error::ConfluenceError;
use crate::pages::ConfluencePage;

verus! {

/// The fixed number of items requested per page.
pub const PAGE_SIZE: usize = 25;

/// HTTP success: any status in the 2xx range.
pub open spec fn spec_is_success_status(status: u16) -> bool {
    200 <= status < 300
}

/// Classifies an HTTP status code as success, the way the transport's own
/// success test does (2xx).
#[verifier::when_used_as_spec(spec_is_success_status)]
pub fn is_success_status(status: u16) -> (r: bool)
    ensures
        r == spec_is_success_status(status),
{
    200 <= status && status < 300
}

/// The header value sent with every page request: the fixed scheme prefix
/// followed by the caller's credential string, passed through verbatim.
pub fn authorization_value(auth: &str) -> (v: String)
    ensures
        v@ == "Basic "@ + auth@,
{
    let mut v = "Basic ".to_owned();
    v.append(auth);
    v
}

/// The failure recorded when no response was received at all: no status, the
/// transport error's description as body text.
pub fn transport_failure(url: String, detail: String) -> (e: ConfluenceError)
    ensures
        e.url@ == url@,
        e.status is None,
        e.body@ == detail@,
{
    ConfluenceError { url, status: None, body: detail }
}

/// Classifies one received response. `parsed` is the body decoded against the
/// expected page schema, or `None` when the body does not match it.
///
/// A non-success status fails with the URL, that status and the raw body,
/// whether or not the body was decodable; a success status with an
/// undecodable body fails the same way (malformed response); a success status
/// with a decoded body yields its items unchanged.
pub fn classify_response(
    url: String,
    status: u16,
    body: String,
    parsed: Option<Vec<ConfluencePage>>,
) -> (r: Result<Vec<ConfluencePage>, ConfluenceError>)
    ensures
        !spec_is_success_status(status) ==> (r matches Err(e) && e.url@ == url@ && e.status
            == Some(status) && e.body@ == body@),
        spec_is_success_status(status) && parsed is None ==> (r matches Err(e) && e.url@ == url@
            && e.status == Some(status) && e.body@ == body@),
        spec_is_success_status(status) ==> (parsed matches Some(items) ==> (r matches Ok(out)
            && out == items)),
{
    if !is_success_status(status) {
        Err(ConfluenceError { url, status: Some(status), body })
    } else {
        match parsed {
            Some(items) => Ok(items),
            None => Err(ConfluenceError { url, status: Some(status), body }),
        }
    }
}

} // verus!
