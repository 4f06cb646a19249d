//! Search results and the download requests built from them, with the API
//! token replaced by a marker in every request URL.
use vstd::prelude::*;

use crate::error::JackettError;
use crate::text::{lacks_char, occurs_in, replace_all, replaced};
use crate::text::{
    lemma_replaced_absent, lemma_replaced_inserts, lemma_replaced_removes, lemma_replaced_undone,
};

verus! {

/// One hit of an indexer search.
#[derive(Debug, Clone, PartialEq)]
pub struct JackettResult {
    pub title: String,
    /// Name of the tracker that holds the torrent.
    pub tracker: Option<String>,
    /// Authenticated link to the `.torrent` file.
    pub link: Option<String>,
    pub magnet_uri: Option<String>,
    pub size: Option<u64>,
    pub seeders: u64,
    pub tmdb: Option<u64>,
    pub imdb: Option<String>,
}

/// The hits of an indexer search, in the indexer's order.
#[derive(Debug, Clone, PartialEq)]
pub struct JackettResults {
    pub results: Vec<JackettResult>,
}

/// Where a request stands in its lifecycle.
#[derive(Debug, Clone, Copy, PartialEq, Eq, Structural)]
pub enum RequestStatus {
    /// Ready for normal processing.
    Unprocessed,
    /// An interim artifact, to be resolved once more downstream.
    Intermediate,
}

/// A download request handed to the downloader.
#[derive(Debug, Clone, PartialEq)]
pub struct RequestDescriptor {
    /// A magnet URI, or a link with the API token replaced by the marker.
    pub url: String,
    /// Tells a magnet URI from a link still to be fetched.
    pub mime: String,
    pub size: Option<u64>,
    pub filename: Option<String>,
    pub referer: Option<String>,
    pub status: RequestStatus,
    /// Whether the request can be stored as it is.
    pub permanent: bool,
}

/// Stands for the API token inside a stored URL.
pub const TOKEN_MARKER: &'static str = "#token#";

/// Media type of a request whose URL is a magnet URI.
pub const DIRECT_MIME: &'static str = "applications/x-bittorrent";

/// Media type of a request whose URL is a link to a `.torrent` file.
pub const INDIRECT_MIME: &'static str = "applications/x-bittorrent-link";

pub open spec fn token_marker() -> Seq<char> {
    "#token#"@
}

pub open spec fn direct_mime() -> Seq<char> {
    "applications/x-bittorrent"@
}

pub open spec fn indirect_mime() -> Seq<char> {
    "applications/x-bittorrent-link"@
}

/// `url` with every occurrence of `token` replaced by the marker.
pub open spec fn redacted(url: Seq<char>, token: Seq<char>) -> Seq<char> {
    replaced(url, token, token_marker())
}

/// `url` with every marker replaced by `token`.
pub open spec fn unredacted(url: Seq<char>, token: Seq<char>) -> Seq<char> {
    replaced(url, token_marker(), token)
}

/// A result can become a request.
pub open spec fn has_link(r: JackettResult) -> bool {
    r.magnet_uri is Some || r.link is Some
}

/// The address a request is built on: the magnet URI, else the link.
pub open spec fn source_url(r: JackettResult) -> Seq<char> {
    match r.magnet_uri {
        Some(m) => m@,
        None => match r.link {
            Some(l) => l@,
            None => Seq::empty(),
        },
    }
}

/// `d` is the request built from `r`, with `token` redacted.
pub open spec fn describes(d: RequestDescriptor, r: JackettResult, token: Seq<char>) -> bool {
    &&& has_link(r)
    &&& d.url@ == redacted(source_url(r), token)
    &&& d.mime@ == (if r.magnet_uri is Some { direct_mime() } else { indirect_mime() })
    &&& d.permanent == (r.magnet_uri is Some)
    &&& d.status == RequestStatus::Unprocessed
    &&& d.size == r.size
    &&& d.filename == Some(r.title)
    &&& d.referer == r.tracker
}

/// The results that can become requests, in their order.
pub open spec fn linked(s: Seq<JackettResult>) -> Seq<JackettResult>
    decreases s.len(),
{
    if s.len() == 0 {
        s
    } else if has_link(s.last()) {
        linked(s.drop_last()).push(s.last())
    } else {
        linked(s.drop_last())
    }
}

/// The two media types differ, so a request is either direct or indirect.
pub proof fn direct_is_not_indirect()
    ensures
        direct_mime() != indirect_mime(),
{
    reveal_strlit("applications/x-bittorrent");
    reveal_strlit("applications/x-bittorrent-link");
    assert(direct_mime().len() != indirect_mime().len());
}

/// Replaces every occurrence of `token` in `url` by the marker.
pub fn redact(url: &str, token: &str) -> (r: String)
    ensures
        r@ == redacted(url@, token@),
{
    replace_all(url, token, TOKEN_MARKER)
}

/// Replaces every marker in `url` by `token`.
pub fn unredact(url: &str, token: &str) -> (r: String)
    ensures
        r@ == unredacted(url@, token@),
{
    replace_all(url, TOKEN_MARKER, token)
}

/// Builds the request for one search result: its magnet URI if it has one,
/// else its link, with `token` redacted from the URL.
pub fn build_request(result: JackettResult, token: &str) -> (r: Result<RequestDescriptor, JackettError>)
    ensures
        match r {
            Ok(d) => describes(d, result, token@),
            Err(e) => !has_link(result) && e == JackettError::NoLink(result),
        },
{
    let url;
    let mime;
    let permanent;
    if let Some(m) = &result.magnet_uri {
        url = redact(m.as_str(), token);
        mime = String::from_str(DIRECT_MIME);
        permanent = true;
    } else if let Some(l) = &result.link {
        url = redact(l.as_str(), token);
        mime = String::from_str(INDIRECT_MIME);
        permanent = false;
    } else {
        return Err(JackettError::NoLink(result));
    }
    Ok(RequestDescriptor {
        url,
        mime,
        size: result.size,
        filename: Some(result.title),
        referer: result.tracker,
        status: RequestStatus::Unprocessed,
        permanent,
    })
}

/// Builds the requests for all results that carry a magnet URI or a link,
/// in the order of the results; the others are left out.
pub fn build_requests(results: JackettResults, token: &str) -> (r: Vec<RequestDescriptor>)
    ensures
        r@.len() == linked(results.results@).len(),
        forall|i: int|
            0 <= i < r@.len() ==> describes(#[trigger] r@[i], linked(results.results@)[i], token@),
{
    let ghost all = results.results@;
    let mut rest = results.results;
    let mut out: Vec<RequestDescriptor> = Vec::new();
    let ghost mut i: int = 0;
    proof {
        assert(all.take(0) =~= Seq::<JackettResult>::empty());
    }
    while rest.len() > 0
        invariant
            0 <= i <= all.len(),
            rest@ == all.skip(i as int),
            out@.len() == linked(all.take(i as int)).len(),
            forall|j: int|
                0 <= j < out@.len() ==> describes(#[trigger] out@[j], linked(all.take(i as int))[j], token@),
        decreases rest.len(),
    {
        proof {
            assert(all.skip(i).len() == all.len() - i);
        }
        let item = rest.remove(0);
        proof {
            assert(all.take(i + 1).drop_last() =~= all.take(i as int));
            assert(all.take(i + 1).last() == all[i as int]);
            assert(item == all[i as int]);
            assert(rest@ =~= all.skip(i + 1));
        }
        let built = build_request(item, token);
        if let Ok(d) = built {
            out.push(d);
        }
        proof {
            i = i + 1;
        }
    }
    proof {
        assert(all.skip(i).len() == all.len() - i);
        assert(all.take(i as int) =~= all);
    }
    out
}

/// A result with a magnet URI becomes a direct, permanent request whose URL
/// is that magnet URI verbatim (when the token does not occur in it).
pub proof fn magnet_request_is_direct(r: JackettResult, token: Seq<char>, d: RequestDescriptor)
    requires
        describes(d, r, token),
        r.magnet_uri is Some,
        token.len() == 0 || !occurs_in(r.magnet_uri->0@, token),
    ensures
        d.url@ == r.magnet_uri->0@,
        d.mime@ == direct_mime(),
        d.permanent,
{
    lemma_replaced_absent(r.magnet_uri->0@, token, token_marker());
}

/// A result with only a link becomes an indirect request that is not
/// permanent.
pub proof fn link_request_is_indirect(r: JackettResult, token: Seq<char>, d: RequestDescriptor)
    requires
        describes(d, r, token),
        r.magnet_uri is None,
        r.link is Some,
    ensures
        d.mime@ == indirect_mime(),
        !d.permanent,
{
}

/// A built request's URL never holds the token, and holds the marker
/// wherever the source URL held the token; the file name and referer are
/// the result's own title and tracker. This needs a token without `#` that is
/// not part of the marker.
pub proof fn request_hides_token(r: JackettResult, token: Seq<char>, d: RequestDescriptor)
    requires
        describes(d, r, token),
        token.len() > 0,
        lacks_char(token, '#'),
        !occurs_in(token_marker(), token),
    ensures
        !occurs_in(d.url@, token),
        occurs_in(source_url(r), token) ==> occurs_in(d.url@, token_marker()),
        !occurs_in(r.title@, token) ==> !occurs_in(d.filename->0@, token),
        r.tracker is Some && !occurs_in(r.tracker->0@, token) ==> !occurs_in(d.referer->0@, token),
{
    reveal_strlit("#token#");
    let m = token_marker();
    assert(m[0] == '#' && m.last() == '#');
    lemma_replaced_removes(source_url(r), token, m);
    if occurs_in(source_url(r), token) {
        lemma_replaced_inserts(source_url(r), token, m);
    }
}

/// Putting the token back into a link request's URL gives the link it was
/// built from, for a link without `#`.
pub proof fn unredact_restores_link(r: JackettResult, token: Seq<char>, d: RequestDescriptor)
    requires
        describes(d, r, token),
        r.magnet_uri is None,
        token.len() > 0,
        lacks_char(source_url(r), '#'),
    ensures
        unredacted(d.url@, token) == r.link->0@,
{
    reveal_strlit("#token#");
    assert(token_marker()[0] == '#');
    lemma_replaced_undone(source_url(r), token, token_marker());
}

} // verus!
