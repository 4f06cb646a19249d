//! The indexer's search URL, and the decisions around the search request.
use vstd::prelude::*;

use crate::error::JackettError;
use crate::query::{param_view, query_is_valid, query_params, search_params, LookupQuery, QueryParam};
use crate::request::{build_requests, describes, linked, JackettResults, RequestDescriptor};

verus! {

/// Indexer address used when the caller configures none.
pub const DEFAULT_BASE_URL: &'static str = "http://127.0.0.1:9117";

/// Path of the indexer's search endpoint, below the base address.
pub const SEARCH_PATH: &'static str = "/api/v2.0/indexers/all/results";

pub open spec fn default_base_url() -> Seq<char> {
    "http://127.0.0.1:9117"@
}

pub open spec fn search_path() -> Seq<char> {
    "/api/v2.0/indexers/all/results"@
}

/// What `urlencoding::encode` makes of a string.
pub uninterp spec fn percent_encoded(s: Seq<char>) -> Seq<char>;

/// Characters that percent-encoding leaves as they are.
pub open spec fn is_unreserved(c: char) -> bool {
    ('0' <= c <= '9') || ('A' <= c <= 'Z') || ('a' <= c <= 'z') || c == '-' || c == '.' || c
        == '_' || c == '~'
}

/// A string of unreserved characters alone.
pub open spec fn all_unreserved(s: Seq<char>) -> bool {
    forall|i: int| 0 <= i < s.len() ==> is_unreserved(#[trigger] s[i])
}

/// An upper-case hexadecimal digit.
pub open spec fn is_hex_upper(c: char) -> bool {
    ('0' <= c <= '9') || ('A' <= c <= 'F')
}

/// Relies on `urlencoding::encode`: every byte but ASCII letters, digits and
/// `-._~` becomes `%` and two upper-case hex digits, so the output holds only
/// those, and a string of unreserved characters alone comes back as it is.
#[verifier::external_body]
fn encode_component(s: &str) -> (r: String)
    ensures
        r@ == percent_encoded(s@),
        forall|i: int|
            0 <= i < r@.len() ==> is_unreserved(#[trigger] r@[i]) || r@[i] == '%' || is_hex_upper(
                r@[i],
            ),
        all_unreserved(s@) ==> r@ == s@,
{
    urlencoding::encode(s).into_owned()
}

/// The base address with one trailing `/` removed.
pub open spec fn trimmed_base(base: Seq<char>) -> Seq<char> {
    if base.len() > 0 && base.last() == '/' {
        base.drop_last()
    } else {
        base
    }
}

/// A parameter value as it stands in the URL: percent-encoded, which leaves
/// a value of unreserved characters as it is.
pub open spec fn encoded_value(v: Seq<char>) -> Seq<char> {
    if all_unreserved(v) {
        v
    } else {
        percent_encoded(v)
    }
}

/// `&key=value` for each parameter, values percent-encoded.
pub open spec fn query_string(ps: Seq<(Seq<char>, Seq<char>)>) -> Seq<char>
    decreases ps.len(),
{
    if ps.len() == 0 {
        Seq::empty()
    } else {
        query_string(ps.drop_last()) + seq!['&'] + ps.last().0 + seq!['='] + encoded_value(
            ps.last().1,
        )
    }
}

/// The search URL for a base address, a token and parameters.
pub open spec fn search_url(base: Seq<char>, token: Seq<char>, ps: Seq<(Seq<char>, Seq<char>)>) -> Seq<
    char,
> {
    trimmed_base(base) + search_path() + seq!['?', 'a', 'p', 'i', 'k', 'e', 'y', '='] + token
        + query_string(ps)
}

/// The configured base address, or the default one.
pub open spec fn base_or_default(base: Option<Seq<char>>) -> Seq<char> {
    match base {
        Some(b) => b,
        None => default_base_url(),
    }
}

/// Builds the search URL: the base address (the default one when absent,
/// without one trailing `/`), the search path, the token as `apikey`, then
/// each parameter with its value percent-encoded.
pub fn get_request(url: Option<&str>, token: &str, params: &Vec<QueryParam>) -> (r: String)
    ensures
        r@ == search_url(
            base_or_default(
                match url {
                    Some(u) => Some(u@),
                    None => None,
                },
            ),
            token@,
            params@.map_values(|p: QueryParam| param_view(p)),
        ),
{
    let base = match url {
        Some(u) => u,
        None => DEFAULT_BASE_URL,
    };
    let n = base.unicode_len();
    let mut out;
    if n > 0 && base.get_char(n - 1) == '/' {
        out = String::from_str(base.substring_char(0, n - 1));
    } else {
        out = String::from_str(base);
    }
    proof {
        assert(out@ =~= trimmed_base(base@));
    }
    out.append(SEARCH_PATH);
    out.append("?apikey=");
    out.append(token);
    proof {
        reveal_strlit("?apikey=");
        assert(out@ =~= trimmed_base(base@) + search_path() + seq![
            '?',
            'a',
            'p',
            'i',
            'k',
            'e',
            'y',
            '=',
        ] + token@);
    }
    let ghost head = out@;
    let ghost ps = params@.map_values(|p: QueryParam| param_view(p));
    let mut i: usize = 0;
    proof {
        assert(ps.take(0) =~= Seq::<(Seq<char>, Seq<char>)>::empty());
    }
    while i < params.len()
        invariant
            i <= params@.len(),
            ps == params@.map_values(|p: QueryParam| param_view(p)),
            out@ == head + query_string(ps.take(i as int)),
        decreases params@.len() - i,
    {
        let p = &params[i];
        out.append("&");
        out.append(p.key.as_str());
        out.append("=");
        let v = encode_component(p.value.as_str());
        out.append(v.as_str());
        proof {
            reveal_strlit("&");
            reveal_strlit("=");
            assert(ps.take(i + 1).drop_last() =~= ps.take(i as int));
            assert(ps.take(i + 1).last() == param_view(params@[i as int]));
            assert(out@ =~= head + query_string(ps.take(i + 1)));
        }
        i = i + 1;
    }
    proof {
        assert(ps.take(i as int) =~= ps);
    }
    out
}

/// What came of one HTTP GET, with the payload already decoded.
#[derive(Debug, PartialEq)]
pub enum Fetch<T> {
    /// The host could not be reached.
    Unreachable(String),
    /// The host answered with `status`; `body` is its decoded payload, or why
    /// it could not be decoded.
    Answered { status: u16, body: Result<T, String> },
}

/// A status in the 2xx range.
pub open spec fn is_success(status: u16) -> bool {
    200 <= status < 300
}

/// The error of a failed fetch, if it failed; a payload that did not decode
/// becomes `undecoded(reason)`.
pub open spec fn fetch_failure<T>(f: Fetch<T>, schema: bool) -> Option<JackettError> {
    match f {
        Fetch::Unreachable(m) => Some(JackettError::TransportFailure(m)),
        Fetch::Answered { status, body } => if !is_success(status) {
            Some(JackettError::UpstreamHttpError { status })
        } else {
            match body {
                Ok(_) => None,
                Err(m) => Some(
                    if schema {
                        JackettError::SchemaMismatch(m)
                    } else {
                        JackettError::DecodeFailure(m)
                    },
                ),
            }
        },
    }
}

/// Opens a lookup: with a token and a searchable query, the URL to fetch.
/// Nothing is to be fetched without a token.
pub fn prepare_lookup(query: &LookupQuery, token: &Option<String>, base: &Option<String>) -> (r:
    Result<String, JackettError>)
    ensures
        token is None ==> r == Err::<String, JackettError>(JackettError::CredentialMissing),
        token is Some && !query_is_valid(*query) ==> r == Err::<String, JackettError>(
            JackettError::UnsupportedOperation,
        ),
        token is Some && query_is_valid(*query) ==> r is Ok && r->Ok_0@ == search_url(
            base_or_default(
                match base {
                    Some(b) => Some(b@),
                    None => None,
                },
            ),
            token->0@,
            query_params(*query),
        ),
{
    let token = match token {
        Some(t) => t,
        None => return Err(JackettError::CredentialMissing),
    };
    let params = match search_params(query) {
        Ok(ps) => ps,
        Err(e) => return Err(e),
    };
    let url = match base {
        Some(b) => Some(b.as_str()),
        None => None,
    };
    Ok(get_request(url, token.as_str(), &params))
}

/// Closes a lookup: the search's outcome becomes the requests built from its
/// results, or the error that stopped it.
pub fn finish_lookup(fetched: Fetch<JackettResults>, token: &str) -> (r: Result<
    Vec<RequestDescriptor>,
    JackettError,
>)
    ensures
        match fetch_failure(fetched, true) {
            Some(e) => r == Err::<Vec<RequestDescriptor>, JackettError>(e),
            None => r is Ok && {
                let results = fetched->Answered_body->Ok_0.results@;
                let ds = r->Ok_0@;
                &&& ds.len() == linked(results).len()
                &&& forall|i: int|
                    0 <= i < ds.len() ==> describes(#[trigger] ds[i], linked(results)[i], token@)
            },
        },
{
    match fetched {
        Fetch::Unreachable(m) => Err(JackettError::TransportFailure(m)),
        Fetch::Answered { status, body } => {
            if status < 200 || status >= 300 {
                return Err(JackettError::UpstreamHttpError { status });
            }
            match body {
                Ok(results) => Ok(build_requests(results, token)),
                Err(m) => Err(JackettError::SchemaMismatch(m)),
            }
        },
    }
}

} // verus!
