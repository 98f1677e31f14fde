//! The transport's side of the library: how the outcome of one POST is
//! judged. The request itself is made by the caller.

use vstd::prelude::*;
use crate::error::TrackioError;

verus! {

/// The header that carries the write token, when one is configured.
pub const WRITE_TOKEN_HEADER: &'static str = "X-Trackio-Write-Token";

/// The status that means "no such path".
pub const NOT_FOUND: u16 = 404;

/// How one POST ended.
#[derive(Debug)]
pub enum HttpOutcome {
    /// The server answered. `body` is the response body; it is only looked at
    /// when `status` is not a success.
    Response { status: u16, body: String },
    /// No response came: the connection failed or the request timed out.
    Failed(reqwest::Error),
}

/// A status in 200..=299.
pub open spec fn success_status(status: u16) -> bool {
    200 <= status < 300
}

/// What an outcome amounts to: success, or the error that describes it.
pub open spec fn classified(outcome: HttpOutcome) -> Result<(), TrackioError> {
    match outcome {
        HttpOutcome::Response { status, body } => {
            if success_status(status) {
                Ok(())
            } else if status == NOT_FOUND {
                Err(TrackioError::NotFound(body))
            } else {
                Err(TrackioError::Status(status, body))
            }
        },
        HttpOutcome::Failed(cause) => Err(TrackioError::Http(cause)),
    }
}

/// Whether `status` is a success, that is, within 200..=299.
pub fn is_success(status: u16) -> (ok: bool)
    ensures
        ok == success_status(status),
{
    200 <= status && status < 300
}

/// Judges the outcome of one POST. Nothing is retried here.
pub fn classify(outcome: HttpOutcome) -> (result: Result<(), TrackioError>)
    ensures
        result == classified(outcome),
{
    match outcome {
        HttpOutcome::Response { status, body } => {
            if is_success(status) {
                Ok(())
            } else if status == NOT_FOUND {
                Err(TrackioError::NotFound(body))
            } else {
                Err(TrackioError::Status(status, body))
            }
        },
        HttpOutcome::Failed(cause) => Err(TrackioError::Http(cause)),
    }
}

/// The address of `path` on the server at `base_url`: the two joined as they
/// are.
pub fn endpoint_url(base_url: &str, path: &str) -> (url: String)
    ensures
        url@ == base_url@ + path@,
{
    let mut url = base_url.to_owned();
    url.append(path);
    url
}

} // verus!
