//! Turns a lookup query into the indexer's search parameters.
use vstd::prelude::*;

use crate::error::JackettError;
use crate::text::{append_two_digits, two_digits};

verus! {

/// What the caller is looking for.
#[derive(Debug, Clone, PartialEq)]
pub enum LookupQuery {
    /// An episode, or a whole season when `number` is absent.
    Episode { serie: String, season: u32, number: Option<u32> },
    Movie { name: String },
}

/// One `key=value` pair of the search's query string.
#[derive(Debug, Clone, PartialEq)]
pub struct QueryParam {
    pub key: String,
    pub value: String,
}

/// What `deunicode::deunicode` makes of a string: its ASCII transliteration.
pub uninterp spec fn ascii_folded(s: Seq<char>) -> Seq<char>;

/// Relies on `deunicode::deunicode`: the result is ASCII, and a string whose
/// characters all lie below `0x7F` comes back as it is.
#[verifier::external_body]
fn fold_ascii(s: &str) -> (r: String)
    ensures
        r@ == ascii_folded(s@),
        forall|i: int| 0 <= i < r@.len() ==> (#[trigger] r@[i] as u32) < 0x80,
        (forall|i: int| 0 <= i < s@.len() ==> (#[trigger] s@[i] as u32) < 0x7F) ==> r@ == s@,
{
    deunicode::deunicode(s)
}

/// The text searched for, with the name folded to ASCII:
/// `"<serie> sSS"` or `"<serie> sSSeEE"` for an episode, the name for a movie.
pub open spec fn search_text(q: LookupQuery) -> Seq<char> {
    match q {
        LookupQuery::Episode { serie, season, number } => ascii_folded(serie@) + seq![' ', 's'] + two_digits(
            season as nat,
        ) + match number {
            Some(n) => seq!['e'] + two_digits(n as nat),
            None => Seq::empty(),
        },
        LookupQuery::Movie { name } => ascii_folded(name@),
    }
}

/// The indexer's search kind for a query.
pub open spec fn search_kind(q: LookupQuery) -> Seq<char> {
    match q {
        LookupQuery::Episode { .. } => seq!['t', 'v', 's', 'e', 'a', 'r', 'c', 'h'],
        LookupQuery::Movie { .. } => seq!['m', 'o', 'v', 'i', 'e'],
    }
}

/// An episode query without a series name cannot be searched.
pub open spec fn query_is_valid(q: LookupQuery) -> bool {
    match q {
        LookupQuery::Episode { serie, .. } => serie@.len() > 0,
        LookupQuery::Movie { .. } => true,
    }
}

/// The key and value of a query parameter.
pub open spec fn param_view(p: QueryParam) -> (Seq<char>, Seq<char>) {
    (p.key@, p.value@)
}

/// The search parameters of a query: its kind under `t`, its text under
/// `Query`.
pub open spec fn query_params(q: LookupQuery) -> Seq<(Seq<char>, Seq<char>)> {
    seq![(seq!['t'], search_kind(q)), (seq!['Q', 'u', 'e', 'r', 'y'], search_text(q))]
}

/// The text searched for by a query, its name folded to ASCII.
pub fn search_string(query: &LookupQuery) -> (r: String)
    ensures
        r@ == search_text(*query),
{
    match query {
        LookupQuery::Episode { serie, season, number } => {
            let mut q = fold_ascii(serie.as_str());
            q.append(" s");
            append_two_digits(&mut q, *season);
            if let Some(n) = number {
                q.append("e");
                append_two_digits(&mut q, *n);
            }
            proof {
                reveal_strlit(" s");
                reveal_strlit("e");
                assert(q@ =~= search_text(*query));
            }
            q
        },
        LookupQuery::Movie { name } => fold_ascii(name.as_str()),
    }
}

/// The search parameters of a query; an episode query without a series
/// name is refused.
pub fn search_params(query: &LookupQuery) -> (r: Result<Vec<QueryParam>, JackettError>)
    ensures
        match r {
            Ok(ps) => query_is_valid(*query) && ps@.map_values(|p: QueryParam| param_view(p))
                == query_params(*query),
            Err(e) => !query_is_valid(*query) && e == JackettError::UnsupportedOperation,
        },
{
    let kind = match query {
        LookupQuery::Episode { serie, .. } => {
            if serie.as_str().unicode_len() == 0 {
                return Err(JackettError::UnsupportedOperation);
            }
            String::from_str("tvsearch")
        },
        LookupQuery::Movie { .. } => String::from_str("movie"),
    };
    let text = search_string(query);
    let ps = vec![
        QueryParam { key: String::from_str("t"), value: kind },
        QueryParam { key: String::from_str("Query"), value: text },
    ];
    proof {
        reveal_strlit("tvsearch");
        reveal_strlit("movie");
        reveal_strlit("t");
        reveal_strlit("Query");
        assert(kind@ =~= search_kind(*query));
        assert(ps@.len() == 2);
        assert(param_view(ps@[0]) == (seq!['t'], search_kind(*query)));
        assert(param_view(ps@[1]) == (seq!['Q', 'u', 'e', 'r', 'y'], search_text(*query)));
        assert(ps@.map_values(|p: QueryParam| param_view(p)) =~= query_params(*query));
    }
    Ok(ps)
}

} // verus!
