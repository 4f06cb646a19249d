//! Turns a link request into a magnet request once its `.torrent` file has
//! been fetched and decoded.
use vstd::prelude::*;

use crate::error::JackettError;
use crate::request::{
    direct_mime, indirect_mime, unredact, unredacted, RequestDescriptor, RequestStatus,
    DIRECT_MIME, INDIRECT_MIME,
};
use crate::search::{fetch_failure, Fetch};

verus! {

/// How a finalized request is marked.
#[derive(Debug, Clone, Copy, PartialEq, Eq, Structural)]
pub enum FinalizeMode {
    /// An interim request, to be resolved once more downstream.
    Staging,
    /// A final request, ready for normal processing.
    Permanent,
}

/// The status a finalized request gets in a mode.
pub open spec fn finalized_status(mode: FinalizeMode) -> RequestStatus {
    match mode {
        FinalizeMode::Staging => RequestStatus::Intermediate,
        FinalizeMode::Permanent => RequestStatus::Unprocessed,
    }
}

/// Opens a finalize: with a token and a link request, the link to fetch,
/// with the token put back in. Nothing is to be fetched otherwise.
pub fn prepare_finalize(request: &RequestDescriptor, token: &Option<String>) -> (r: Result<
    String,
    JackettError,
>)
    ensures
        token is None ==> r == Err::<String, JackettError>(JackettError::CredentialMissing),
        token is Some && request.mime@ != indirect_mime() ==> r == Err::<String, JackettError>(
            JackettError::UnsupportedOperation,
        ),
        token is Some && request.mime@ == indirect_mime() ==> r is Ok && r->Ok_0@ == unredacted(
            request.url@,
            token->0@,
        ),
{
    let token = match token {
        Some(t) => t,
        None => return Err(JackettError::CredentialMissing),
    };
    if request.mime != String::from_str(INDIRECT_MIME) {
        return Err(JackettError::UnsupportedOperation);
    }
    Ok(unredact(request.url.as_str(), token.as_str()))
}

/// Closes a finalize: on a fetched and decoded magnet URI the request
/// becomes a permanent magnet request with the mode's status; on any
/// failure it is left as it was.
pub fn complete_finalize(request: &mut RequestDescriptor, fetched: Fetch<String>, mode: FinalizeMode) -> (r:
    Result<(), JackettError>)
    ensures
        match fetch_failure(fetched, false) {
            Some(e) => r == Err::<(), JackettError>(e) && *final(request) == *old(request),
            None => {
                &&& r is Ok
                &&& final(request).url@ == fetched->Answered_body->Ok_0@
                &&& final(request).mime@ == direct_mime()
                &&& final(request).status == finalized_status(mode)
                &&& final(request).permanent
                &&& final(request).size == old(request).size
                &&& final(request).filename == old(request).filename
                &&& final(request).referer == old(request).referer
            },
        },
{
    match fetched {
        Fetch::Unreachable(m) => Err(JackettError::TransportFailure(m)),
        Fetch::Answered { status, body } => {
            if status < 200 || status >= 300 {
                return Err(JackettError::UpstreamHttpError { status });
            }
            match body {
                Ok(magnet) => {
                    request.url = magnet;
                    request.mime = String::from_str(DIRECT_MIME);
                    request.status =
                    match mode {
                        FinalizeMode::Staging => RequestStatus::Intermediate,
                        FinalizeMode::Permanent => RequestStatus::Unprocessed,
                    };
                    request.permanent = true;
                    Ok(())
                },
                Err(m) => Err(JackettError::DecodeFailure(m)),
            }
        },
    }
}

} // verus!
