use animeschedule::api_request::{ApiRequest, RequestMethod};
use animeschedule::auth::{AppToken, Auth};
use animeschedule::errors::ApiError;
use animeschedule::secrets::{AccessToken, ClientId, ClientSecret, RedirectUrl};
use animeschedule::utils::IsJson;
use http::{HeaderMap, HeaderValue};

const NOW: u64 = 1_700_000_000;

fn manager() -> Auth {
    Auth::new(
        ClientId::new("client".to_string()),
        ClientSecret::new("hush".to_string()),
        AppToken::new("app".to_string()),
        RedirectUrl::new("http://localhost:8080/callback".to_string()).unwrap(),
    )
}

fn limited() -> HeaderMap {
    let mut map = HeaderMap::new();
    map.insert("x-ratelimit-limit", HeaderValue::from_static("120"));
    map.insert("x-ratelimit-remaining", HeaderValue::from_static("119"));
    map.insert("x-ratelimit-reset", HeaderValue::from_static("1700000060"));
    map
}

#[test]
fn user_scoped_call_with_an_empty_store_is_refused() {
    let auth = manager();
    let url = "https://animeschedule.net/api/v3/animelists/oauth".to_string();
    assert!(matches!(ApiRequest::get(&auth, url.clone(), true), Err(ApiError::AccessTokenError)));
    assert!(matches!(ApiRequest::put(&auth, url.clone(), true), Err(ApiError::AccessTokenError)));
    assert!(matches!(
        ApiRequest::delete(&auth, url.clone(), true),
        Err(ApiError::AccessTokenError)
    ));
    assert!(matches!(
        ApiRequest::prepare_at(&auth, url, RequestMethod::Get, true, 0),
        Err(ApiError::AccessTokenError)
    ));
}

#[test]
fn user_scoped_call_with_a_stale_token_is_refused() {
    let mut auth = manager();
    auth.set_access_token_unchecked(AccessToken::new("abc".to_string()));
    auth.set_expires_at_unchecked(NOW);
    let url = "https://animeschedule.net/api/v3/animelists/oauth".to_string();
    assert!(matches!(
        ApiRequest::prepare_at(&auth, url.clone(), RequestMethod::Get, true, NOW),
        Err(ApiError::AccessTokenError)
    ));
    assert!(matches!(ApiRequest::get(&auth, url.clone(), true), Err(ApiError::AccessTokenError)));
    let request = ApiRequest::prepare_at(&auth, url, RequestMethod::Get, true, NOW - 1).unwrap();
    assert_eq!(request.bearer, "abc");
}

#[test]
fn user_scoped_call_carries_the_access_token() {
    let mut auth = manager();
    auth.set_access_token_unchecked(AccessToken::new("abc".to_string()));
    assert!(auth.set_expires_in_unchecked(3600));
    let url = "https://animeschedule.net/api/v3/animelists/oauth".to_string();
    let request = ApiRequest::put(&auth, url.clone(), true).unwrap();
    assert_eq!(request.method, RequestMethod::Put);
    assert_eq!(request.url, url);
    assert_eq!(request.bearer, "abc");
    assert!(request.user_scoped);
}

#[test]
fn app_scoped_call_carries_the_app_token() {
    let auth = manager();
    let url = "https://animeschedule.net/api/v3/anime".to_string();
    let request = ApiRequest::get(&auth, url.clone(), false).unwrap();
    assert_eq!(request.method, RequestMethod::Get);
    assert_eq!(request.url, url);
    assert_eq!(request.bearer, "app");
    assert!(!request.user_scoped);
    let request = ApiRequest::delete(&auth, url, false).unwrap();
    assert_eq!(request.method, RequestMethod::Delete);
}

#[test]
fn a_good_response_hands_on_limit_and_body() {
    let (limit, body) = ApiRequest::receive(200, &limited(), "{\"page\":1}".to_string()).unwrap();
    assert_eq!((limit.limit, limit.remaining, limit.reset), (120, 119, 1_700_000_060));
    assert_eq!(body, "{\"page\":1}");
}

#[test]
fn an_error_status_carries_the_raw_body() {
    for status in [400u16, 401, 404, 429, 499, 500, 503, 599] {
        match ApiRequest::receive(status, &limited(), "{\"message\":\"no\"}".to_string()) {
            Err(ApiError::ApiError { status: s, error }) => {
                assert_eq!(s, status);
                assert_eq!(error, "{\"message\":\"no\"}");
            },
            _ => panic!("status {} was accepted", status),
        }
    }
    for status in [200u16, 201, 204, 304, 399, 600] {
        assert!(ApiRequest::receive(status, &limited(), "[]".to_string()).is_ok());
    }
}

#[test]
fn a_body_that_is_not_json_is_an_error() {
    match ApiRequest::receive(200, &limited(), "<html>busy</html>".to_string()) {
        Err(ApiError::ApiError { status, error }) => {
            assert_eq!(status, 200);
            assert_eq!(error, "<html>busy</html>");
        },
        _ => panic!("the body was accepted"),
    }
    assert!(matches!(
        ApiRequest::receive(200, &limited(), String::new()),
        Err(ApiError::ApiError { .. })
    ));
}

#[test]
fn a_response_without_rate_limit_is_refused() {
    assert!(matches!(
        ApiRequest::receive(200, &HeaderMap::new(), "{}".to_string()),
        Err(ApiError::RateLimit)
    ));
    let mut map = limited();
    map.remove("x-ratelimit-reset");
    assert!(matches!(
        ApiRequest::receive(404, &map, "{}".to_string()),
        Err(ApiError::RateLimit)
    ));
}

#[test]
fn sorting_follows_status_and_body() {
    let limit = ApiRequest::receive(200, &limited(), "1".to_string()).unwrap().0;
    assert!(ApiRequest::sort_response(200, Some(limit), true, "x".to_string()).is_ok());
    assert!(matches!(
        ApiRequest::sort_response(200, Some(limit), false, "x".to_string()),
        Err(ApiError::ApiError { status: 200, .. })
    ));
    assert!(matches!(
        ApiRequest::sort_response(500, Some(limit), true, "x".to_string()),
        Err(ApiError::ApiError { status: 500, .. })
    ));
    assert!(matches!(
        ApiRequest::sort_response(200, None, true, "x".to_string()),
        Err(ApiError::RateLimit)
    ));
}

#[test]
fn strings_know_whether_they_are_json() {
    assert!("{\"a\": [1, 2, {\"b\": null}]}".to_string().is_json());
    assert!("3".to_string().is_json());
    assert!("\"text\"".to_string().is_json());
    assert!(!"{\"a\": ".to_string().is_json());
    assert!(!"{} trailing".to_string().is_json());
    assert!(!String::new().is_json());
    assert!(!"not json".to_string().is_json());
}
