//! Why a flush failed.

use vstd::prelude::*;

verus! {

/// The ways in which sending a batch can fail.
#[derive(Debug)]
pub enum TrackioError {
    /// None of the candidate paths accepted the batch.
    NoBulkEndpoint,
    /// The request never got a response: no connection, or a timeout.
    Http(reqwest::Error),
    /// The server answered 404; the text is the response body.
    NotFound(String),
    /// The server answered with another status outside 200..=299; the text is
    /// the response body.
    Status(u16, String),
}

} // verus!
