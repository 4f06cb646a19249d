//! The failures of a lookup or of a finalize.
use vstd::prelude::*;

use crate::request::JackettResult;

verus! {

/// Why a lookup or a finalize did not produce requests.
#[derive(Debug, Clone, PartialEq)]
pub enum JackettError {
    /// No API token was supplied.
    CredentialMissing,
    /// The request is not one this indexer can resolve.
    UnsupportedOperation,
    /// The indexer or the torrent host answered with a non-2xx status.
    UpstreamHttpError { status: u16 },
    /// The indexer or the torrent host could not be reached.
    TransportFailure(String),
    /// The search response did not have the expected shape.
    SchemaMismatch(String),
    /// The downloaded torrent could not be turned into a magnet URI.
    DecodeFailure(String),
    /// A search result carried neither a magnet URI nor a link.
    NoLink(JackettResult),
}

/// The HTTP-like code under which an error is reported to the host.
pub open spec fn error_code(e: JackettError) -> u16 {
    match e {
        JackettError::CredentialMissing => 401,
        JackettError::UnsupportedOperation => 404,
        JackettError::UpstreamHttpError { status } => status,
        _ => 500,
    }
}

impl JackettError {
    /// The HTTP-like code under which this error is reported to the host.
    pub fn code(&self) -> (r: u16)
        ensures
            r == error_code(*self),
    {
        match self {
            JackettError::CredentialMissing => 401,
            JackettError::UnsupportedOperation => 404,
            JackettError::UpstreamHttpError { status } => *status,
            _ => 500,
        }
    }
}

} // verus!
