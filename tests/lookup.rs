use jackett_lookup::error::JackettError;
use jackett_lookup::query::{search_params, search_string, LookupQuery, QueryParam};
use jackett_lookup::request::{
    build_request, build_requests, JackettResult, JackettResults, RequestStatus, DIRECT_MIME,
    INDIRECT_MIME,
};
use jackett_lookup::search::{finish_lookup, get_request, prepare_lookup, Fetch};

fn result(title: &str, link: Option<&str>, magnet: Option<&str>) -> JackettResult {
    JackettResult {
        title: title.to_string(),
        tracker: Some("tracker1".to_string()),
        link: link.map(|s| s.to_string()),
        magnet_uri: magnet.map(|s| s.to_string()),
        size: Some(1234),
        seeders: 7,
        tmdb: None,
        imdb: None,
    }
}

fn episode(serie: &str, season: u32, number: Option<u32>) -> LookupQuery {
    LookupQuery::Episode { serie: serie.to_string(), season, number }
}

#[test]
fn episode_search_string_pads_season_and_episode() {
    assert_eq!(search_string(&episode("Foo", 2, Some(5))), "Foo s02e05");
    assert_eq!(search_string(&episode("Foo", 12, Some(123))), "Foo s12e123");
}

#[test]
fn season_search_string_has_no_episode() {
    assert_eq!(search_string(&episode("Foo", 2, None)), "Foo s02");
    assert_eq!(search_string(&episode("Bar", 0, None)), "Bar s00");
}

#[test]
fn movie_search_string_is_the_folded_name() {
    let q = LookupQuery::Movie { name: "Amélie".to_string() };
    assert_eq!(search_string(&q), "Amelie");
}

#[test]
fn episode_search_string_folds_the_serie() {
    assert_eq!(search_string(&episode("Pokémon", 1, None)), "Pokemon s01");
    assert_eq!(search_string(&episode("Pokémon", 1, Some(5))), "Pokemon s01e05");
}

#[test]
fn episode_without_serie_is_refused() {
    assert_eq!(search_params(&episode("", 1, Some(1))).unwrap_err(), JackettError::UnsupportedOperation);
}

#[test]
fn params_carry_kind_and_text() {
    let ps = search_params(&episode("Foo", 2, Some(5))).unwrap();
    assert_eq!(ps.len(), 2);
    assert_eq!((ps[0].key.as_str(), ps[0].value.as_str()), ("t", "tvsearch"));
    assert_eq!((ps[1].key.as_str(), ps[1].value.as_str()), ("Query", "Foo s02e05"));
    let ps = search_params(&LookupQuery::Movie { name: "X".to_string() }).unwrap();
    assert_eq!(ps[0].value, "movie");
}

#[test]
fn request_url_uses_default_base_and_encodes_values() {
    let ps = search_params(&episode("Foo", 2, Some(5))).unwrap();
    let url = get_request(None, "testtoken", &ps);
    assert_eq!(
        url,
        "http://127.0.0.1:9117/api/v2.0/indexers/all/results?apikey=testtoken&t=tvsearch&Query=Foo%20s02e05"
    );
}

#[test]
fn request_url_keeps_unreserved_values() {
    let ps = vec![
        QueryParam { key: "testparam1".to_string(), value: "A".to_string() },
        QueryParam { key: "testparam2".to_string(), value: "B-c_d.e~".to_string() },
    ];
    let url = get_request(Some("http://127.0.0.1:9117"), "testtoken", &ps);
    assert_eq!(
        url,
        "http://127.0.0.1:9117/api/v2.0/indexers/all/results?apikey=testtoken&testparam1=A&testparam2=B-c_d.e~"
    );
}

#[test]
fn request_url_strips_one_trailing_slash() {
    let ps = search_params(&LookupQuery::Movie { name: "A&B".to_string() }).unwrap();
    let url = get_request(Some("http://host:1/"), "k", &ps);
    assert_eq!(url, "http://host:1/api/v2.0/indexers/all/results?apikey=k&t=movie&Query=A%26B");
    let url = get_request(Some("http://host:1//"), "k", &ps);
    assert_eq!(url, "http://host:1//api/v2.0/indexers/all/results?apikey=k&t=movie&Query=A%26B");
}

#[test]
fn lookup_without_token_is_refused() {
    let q = LookupQuery::Movie { name: "Amélie".to_string() };
    assert_eq!(prepare_lookup(&q, &None, &None).unwrap_err(), JackettError::CredentialMissing);
    assert_eq!(prepare_lookup(&episode("", 1, None), &None, &None).unwrap_err(), JackettError::CredentialMissing);
}

#[test]
fn magnet_result_becomes_direct_request() {
    let d = build_request(result("Movie 2001", Some("http://x/y"), Some("magnet:?xt=urn:btih:1")), "SECRET").unwrap();
    assert_eq!(d.url, "magnet:?xt=urn:btih:1");
    assert_eq!(d.mime, DIRECT_MIME);
    assert!(d.permanent);
    assert_eq!(d.status, RequestStatus::Unprocessed);
    assert_eq!(d.filename.as_deref(), Some("Movie 2001"));
    assert_eq!(d.referer.as_deref(), Some("tracker1"));
    assert_eq!(d.size, Some(1234));
}

#[test]
fn link_result_becomes_indirect_request() {
    let d = build_request(result("Show", Some("http://x/dl?apikey=SECRET&f=1"), None), "SECRET").unwrap();
    assert_eq!(d.url, "http://x/dl?apikey=#token#&f=1");
    assert_eq!(d.mime, INDIRECT_MIME);
    assert!(!d.permanent);
    assert!(!d.url.contains("SECRET"));
}

#[test]
fn result_without_link_is_inconvertible() {
    let r = result("Nothing", None, None);
    assert_eq!(build_request(r.clone(), "SECRET").unwrap_err(), JackettError::NoLink(r));
}

#[test]
fn scenario_movie_with_magnet() {
    let q = LookupQuery::Movie { name: "Amélie".to_string() };
    let url = prepare_lookup(&q, &Some("SECRET".to_string()), &None).unwrap();
    assert_eq!(
        url,
        "http://127.0.0.1:9117/api/v2.0/indexers/all/results?apikey=SECRET&t=movie&Query=Amelie"
    );
    let results = JackettResults { results: vec![result("Amélie 2001", None, Some("magnet:?xt=urn:btih:abc"))] };
    let ds = finish_lookup(Fetch::Answered { status: 200, body: Ok(results) }, "SECRET").unwrap();
    assert_eq!(ds.len(), 1);
    assert_eq!(ds[0].url, "magnet:?xt=urn:btih:abc");
    assert_eq!(ds[0].mime, DIRECT_MIME);
    assert!(ds[0].permanent);
}

#[test]
fn scenario_upstream_unavailable() {
    let r = finish_lookup(Fetch::Answered { status: 503, body: Err("not json".to_string()) }, "SECRET");
    let e = r.unwrap_err();
    assert_eq!(e, JackettError::UpstreamHttpError { status: 503 });
    assert_eq!(e.code(), 503);
}

#[test]
fn scenario_inconvertible_result_is_dropped() {
    let results = JackettResults {
        results: vec![result("bad", None, None), result("good", Some("http://x/y"), None)],
    };
    let ds = finish_lookup(Fetch::Answered { status: 200, body: Ok(results) }, "SECRET").unwrap();
    assert_eq!(ds.len(), 1);
    assert_eq!(ds[0].filename.as_deref(), Some("good"));
}

#[test]
fn build_requests_keeps_order() {
    let results = JackettResults {
        results: vec![
            result("a", None, Some("magnet:a")),
            result("b", None, None),
            result("c", Some("http://c"), None),
        ],
    };
    let ds = build_requests(results, "tok");
    assert_eq!(ds.len(), 2);
    assert_eq!(ds[0].url, "magnet:a");
    assert_eq!(ds[1].url, "http://c");
}

#[test]
fn empty_results_give_no_requests() {
    let ds = finish_lookup(Fetch::Answered { status: 200, body: Ok(JackettResults { results: vec![] }) }, "t").unwrap();
    assert!(ds.is_empty());
}

#[test]
fn lookup_failures_map_to_errors() {
    let e = finish_lookup(Fetch::Unreachable("refused".to_string()), "t").unwrap_err();
    assert_eq!(e, JackettError::TransportFailure("refused".to_string()));
    assert_eq!(e.code(), 500);
    let e = finish_lookup(Fetch::Answered { status: 200, body: Err("bad".to_string()) }, "t").unwrap_err();
    assert_eq!(e, JackettError::SchemaMismatch("bad".to_string()));
    assert_eq!(e.code(), 500);
    assert_eq!(JackettError::CredentialMissing.code(), 401);
    assert_eq!(JackettError::UnsupportedOperation.code(), 404);
}

#[test]
fn search_string_handles_largest_numbers() {
    assert_eq!(search_string(&episode("Foo", u32::MAX, Some(0))), "Foo s4294967295e00");
    assert_eq!(search_string(&episode("Foo", 100, Some(9))), "Foo s100e09");
}
