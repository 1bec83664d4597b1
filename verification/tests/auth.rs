use animeschedule::auth::{AppToken, Auth, AuthStep, AuthTokens, RevocableToken, TokenGrant};
use animeschedule::errors::TokenError;
use animeschedule::secrets::{
    AccessToken, AuthorizationCode, ClientId, ClientSecret, CsrfToken, PkceCodeVerifier,
    RedirectUrl, RefreshToken, Scope,
};

const NOW: u64 = 1_700_000_000;

fn manager() -> Auth {
    Auth::new(
        ClientId::new("client".to_string()),
        ClientSecret::new("hush".to_string()),
        AppToken::new("app".to_string()),
        RedirectUrl::new("http://localhost:8080/callback".to_string()).unwrap(),
    )
}

fn grant(access: &str, refresh: &str, expires_in: u64) -> TokenGrant {
    TokenGrant {
        access_token: AccessToken::new(access.to_string()),
        refresh_token: RefreshToken::new(refresh.to_string()),
        expires_in,
    }
}

fn state(text: &str) -> CsrfToken {
    CsrfToken::new(text.to_string())
}

fn pkce() -> PkceCodeVerifier {
    PkceCodeVerifier::new("v".repeat(43)).unwrap()
}

fn stored(auth: &Auth) -> (Option<String>, Option<String>, u64) {
    (
        auth.access_token().map(|t| t.secret().clone()),
        auth.refresh_token().map(|t| t.secret().clone()),
        auth.expires_at(),
    )
}

fn with_tokens(access: &str, refresh: &str, expires_at: u64) -> Auth {
    let mut auth = manager();
    auth.set_access_token_unchecked(AccessToken::new(access.to_string()));
    auth.set_refresh_token_unchecked(RefreshToken::new(refresh.to_string()));
    auth.set_expires_at_unchecked(expires_at);
    auth
}

#[test]
fn new_manager_holds_nothing() {
    let auth = manager();
    assert_eq!(stored(&auth), (None, None, 0));
    assert_eq!(auth.app_token().secret(), "app");
    assert_eq!(auth.client_id().as_str(), "client");
    assert_eq!(auth.client_secret().secret(), "hush");
    assert_eq!(auth.redirect_url().as_str(), "http://localhost:8080/callback");
    assert!(auth.scopes().is_empty());
}

#[test]
fn never_valid_before_a_token_is_set() {
    let mut auth = manager();
    assert!(!auth.is_valid_at(0));
    assert!(!auth.is_valid_at(NOW));
    assert!(!auth.is_valid());
    assert!(!auth.is_refresh_valid());
    auth.set_expires_at_unchecked(NOW + 100);
    assert!(!auth.is_valid_at(NOW));
    assert!(!auth.is_refresh_valid_at(NOW));
}

#[test]
fn a_token_without_an_expiry_is_not_valid() {
    let mut auth = manager();
    auth.set_access_token_unchecked(AccessToken::new("abc".to_string()));
    assert!(!auth.is_valid_at(0));
    assert!(!auth.is_valid_at(NOW));
    assert!(!auth.is_valid());
}

#[test]
fn valid_for_the_lifetime_and_not_a_second_longer() {
    let mut auth = with_tokens("old", "older", NOW + 10);
    let step = auth.refreshed_with(false, Ok(grant("abc", "def", 3600)), NOW, state("s"), pkce());
    assert!(matches!(step, AuthStep::Done(Ok(()))));
    assert_eq!(auth.expires_at(), NOW + 3600);
    assert!(auth.is_valid_at(NOW));
    assert!(auth.is_valid_at(NOW + 3599));
    assert!(!auth.is_valid_at(NOW + 3600));
    assert!(!auth.is_valid_at(NOW + 3601));
    assert!(auth.is_refresh_valid_at(NOW + 3599));
    assert!(!auth.is_refresh_valid_at(NOW + 3600));
}

#[test]
fn the_clock_decides_validity() {
    let mut auth = with_tokens("abc", "def", 0);
    assert!(auth.set_expires_in_unchecked(3600));
    assert!(auth.is_valid());
    assert!(auth.is_refresh_valid());
    auth.set_expires_at_unchecked(1);
    assert!(!auth.is_valid());
    assert!(!auth.is_refresh_valid());
}

#[test]
fn set_expires_in_adds_to_the_clock() {
    let mut auth = manager();
    auth.set_expires_in_at(3600, NOW);
    assert_eq!(auth.expires_at(), NOW + 3600);
    assert!(!auth.set_expires_in_unchecked(u64::MAX));
    assert_eq!(auth.expires_at(), NOW + 3600);
}

#[test]
fn refresh_scenario_replaces_stale_credentials() {
    let mut auth = with_tokens("abc", "def", NOW - 10);
    assert!(!auth.is_valid_at(NOW));
    let step = auth.refresh();
    let (token, escalate) = match step {
        AuthStep::Refresh { token, escalate } => (token, escalate),
        _ => panic!("the refresh token was not sent"),
    };
    assert_eq!(token.secret(), "def");
    assert!(!escalate);
    let step = auth.refreshed_with(escalate, Ok(grant("abc2", "def2", 3600)), NOW, state("s"), pkce());
    assert!(matches!(step, AuthStep::Done(Ok(()))));
    assert_eq!(
        stored(&auth),
        (Some("abc2".to_string()), Some("def2".to_string()), NOW + 3600)
    );
    assert!(auth.is_valid_at(NOW));
}

#[test]
fn try_refresh_refreshes_while_the_refresh_token_is_valid() {
    let mut auth = with_tokens("abc", "def", NOW + 10);
    let step = auth.try_refresh_at(NOW, state("s"), pkce());
    let (token, escalate) = match step {
        AuthStep::Refresh { token, escalate } => (token, escalate),
        _ => panic!("the refresh token was not sent"),
    };
    assert_eq!(token.secret(), "def");
    assert!(escalate);
    let step = auth.refreshed_with(escalate, Ok(grant("abc2", "def2", 3600)), NOW + 1, state("s"), pkce());
    assert!(matches!(step, AuthStep::Done(Ok(()))));
    assert_eq!(
        stored(&auth),
        (Some("abc2".to_string()), Some("def2".to_string()), NOW + 3601)
    );
    assert!(auth.is_valid_at(NOW + 1));
}

#[test]
fn try_refresh_regenerates_once_the_refresh_token_is_stale() {
    let mut auth = with_tokens("abc", "def", NOW - 10);
    auth.set_callback();
    let step = auth.try_refresh_at(NOW, state("issued"), pkce());
    let issued = match step {
        AuthStep::Authorize { state, .. } => state,
        _ => panic!("no authorization URL went out"),
    };
    assert_eq!(issued.secret(), "issued");
    let step = auth.authorized(Ok((AuthorizationCode::new("code".to_string()), issued)));
    let (code, sent) = match step {
        AuthStep::Exchange { code, verifier } => (code, verifier),
        _ => panic!("the code was not exchanged"),
    };
    assert_eq!(code.secret(), "code");
    assert_eq!(sent.secret(), &"v".repeat(43));
    assert!(auth.exchanged_at(Ok(grant("abc2", "def2", 3600)), NOW).is_ok());
    assert_eq!(
        stored(&auth),
        (Some("abc2".to_string()), Some("def2".to_string()), NOW + 3600)
    );
    assert!(auth.is_valid_at(NOW));
}

#[test]
fn failed_refresh_escalates_to_a_grant() {
    let mut auth = with_tokens("abc", "def", NOW + 10);
    auth.set_callback();
    let step = auth.try_refresh_at(NOW, state("s"), pkce());
    assert!(matches!(step, AuthStep::Refresh { escalate: true, .. }));
    let step = auth.refreshed_with(true, Err("invalid_grant".to_string()), NOW, state("s2"), pkce());
    let issued = match step {
        AuthStep::Authorize { state, .. } => state,
        _ => panic!("the failed refresh did not escalate"),
    };
    assert_eq!(issued.secret(), "s2");
    assert_eq!(stored(&auth), (Some("abc".to_string()), Some("def".to_string()), NOW + 10));
    let step = auth.authorized(Ok((AuthorizationCode::new("code".to_string()), issued)));
    assert!(matches!(step, AuthStep::Exchange { .. }));
    assert!(auth.exchanged_at(Ok(grant("new", "newer", 3600)), NOW + 5).is_ok());
    assert_eq!(
        stored(&auth),
        (Some("new".to_string()), Some("newer".to_string()), NOW + 3605)
    );
    assert!(auth.is_valid_at(NOW + 5));
}

#[test]
fn failed_refresh_is_reported_with_the_providers_text() {
    let mut auth = with_tokens("abc", "def", NOW + 10);
    let step = auth.refreshed_with(false, Err("invalid_grant".to_string()), NOW, state("s"), pkce());
    match step {
        AuthStep::Done(Err(TokenError::OAuth2(text))) => assert_eq!(text, "invalid_grant"),
        _ => panic!("the failure was not reported"),
    }
    assert_eq!(stored(&auth), (Some("abc".to_string()), Some("def".to_string()), NOW + 10));
    let step = auth.refreshed(false, Err("server_error".to_string()));
    match step {
        AuthStep::Done(Err(TokenError::OAuth2(text))) => assert_eq!(text, "server_error"),
        _ => panic!("the failure was not reported"),
    }
}

#[test]
fn refresh_without_a_refresh_token_fails() {
    let auth = manager();
    assert!(matches!(auth.refresh(), AuthStep::Done(Err(TokenError::Refresh))));
}

#[test]
fn a_lifetime_past_the_end_of_time_is_a_failed_exchange() {
    let mut auth = with_tokens("abc", "def", NOW + 10);
    let step = auth.refreshed_with(false, Ok(grant("x", "y", u64::MAX)), NOW, state("s"), pkce());
    match step {
        AuthStep::Done(Err(TokenError::OAuth2(text))) => {
            assert_eq!(text, "token lifetime out of range")
        },
        _ => panic!("the grant was accepted"),
    }
    assert_eq!(stored(&auth), (Some("abc".to_string()), Some("def".to_string()), NOW + 10));
    let step = auth.refreshed_with(false, Ok(grant("x", "y", u64::MAX - NOW)), NOW, state("s"), pkce());
    assert!(matches!(step, AuthStep::Done(Ok(()))));
    assert_eq!(auth.expires_at(), u64::MAX);
}

#[test]
fn state_mismatch_fails_and_changes_nothing() {
    let mut auth = with_tokens("abc", "def", NOW - 10);
    auth.set_callback();
    auth.add_scope(Scope::new("animelist".to_string()));
    let step = auth.open_grant(state("issued"), pkce());
    assert!(matches!(step, AuthStep::Authorize { .. }));
    let step = auth.authorized(Ok((AuthorizationCode::new("code".to_string()), state("forged"))));
    assert!(matches!(step, AuthStep::Done(Err(TokenError::StateMismatch))));
    assert_eq!(stored(&auth), (Some("abc".to_string()), Some("def".to_string()), NOW - 10));
    assert_eq!(auth.scopes().len(), 1);
    // the attempt has ended: its exchange is no longer expected, another may start
    assert!(matches!(
        auth.exchanged_at(Ok(grant("x", "y", 3600)), NOW),
        Err(TokenError::Access)
    ));
    assert_eq!(stored(&auth), (Some("abc".to_string()), Some("def".to_string()), NOW - 10));
    assert!(matches!(auth.open_grant(state("again"), pkce()), AuthStep::Authorize { .. }));
}

#[test]
fn an_answer_without_an_attempt_is_a_state_mismatch() {
    let mut auth = manager();
    let step = auth.authorized(Ok((AuthorizationCode::new("code".to_string()), state("any"))));
    assert!(matches!(step, AuthStep::Done(Err(TokenError::StateMismatch))));
    assert_eq!(stored(&auth), (None, None, 0));
}

#[test]
fn callback_failure_ends_the_attempt() {
    let mut auth = manager();
    auth.set_callback();
    assert!(matches!(auth.open_grant(state("s"), pkce()), AuthStep::Authorize { .. }));
    let step = auth.authorized(Err("user closed the window".to_string()));
    match step {
        AuthStep::Done(Err(TokenError::Callback(text))) => {
            assert_eq!(text, "user closed the window")
        },
        _ => panic!("the failure was not reported"),
    }
    assert_eq!(stored(&auth), (None, None, 0));
    assert!(matches!(auth.open_grant(state("s"), pkce()), AuthStep::Authorize { .. }));
}

#[test]
fn grant_without_a_callback_fails_at_once() {
    let mut auth = manager();
    match auth.regenerate() {
        AuthStep::Done(Err(TokenError::Callback(text))) => {
            assert_eq!(text, "oauth2 callback not implemented")
        },
        _ => panic!("a grant started without a callback"),
    }
    match auth.try_refresh() {
        AuthStep::Done(Err(TokenError::Callback(_))) => {},
        _ => panic!("a grant started without a callback"),
    }
}

#[test]
fn failed_code_exchange_is_an_access_error() {
    let mut auth = with_tokens("abc", "def", NOW - 10);
    auth.set_callback();
    let issued = match auth.regenerate() {
        AuthStep::Authorize { state, .. } => state,
        _ => panic!("no authorization URL went out"),
    };
    let step = auth.authorized(Ok((AuthorizationCode::new("code".to_string()), issued)));
    assert!(matches!(step, AuthStep::Exchange { .. }));
    assert!(matches!(
        auth.exchanged(Err("invalid_request".to_string())),
        Err(TokenError::Access)
    ));
    assert_eq!(stored(&auth), (Some("abc".to_string()), Some("def".to_string()), NOW - 10));
    assert!(matches!(auth.regenerate(), AuthStep::Authorize { .. }));
}

#[test]
fn regenerate_installs_the_grant_at_the_present_second() {
    let mut auth = manager();
    auth.set_callback();
    let issued = match auth.regenerate() {
        AuthStep::Authorize { state, .. } => state,
        _ => panic!("no authorization URL went out"),
    };
    let step = auth.authorized(Ok((AuthorizationCode::new("code".to_string()), issued)));
    assert!(matches!(step, AuthStep::Exchange { .. }));
    assert!(auth.exchanged(Ok(grant("abc", "def", 3600))).is_ok());
    assert!(auth.is_valid());
    assert!(auth.expires_at() > NOW);
    assert_eq!(auth.access_token().unwrap().secret(), "abc");
    assert_eq!(auth.refresh_token().unwrap().secret(), "def");
}

#[test]
fn only_one_grant_is_in_flight() {
    let mut auth = manager();
    auth.set_callback();
    let first = match auth.open_grant(state("first"), pkce()) {
        AuthStep::Authorize { state, .. } => state,
        _ => panic!("no authorization URL went out"),
    };
    // a second caller is told to wait, before and during the exchange
    assert!(matches!(auth.open_grant(state("second"), pkce()), AuthStep::Wait));
    assert!(matches!(auth.regenerate(), AuthStep::Wait));
    assert!(matches!(auth.try_refresh_at(NOW, state("third"), pkce()), AuthStep::Wait));
    let step = auth.authorized(Ok((AuthorizationCode::new("code".to_string()), first)));
    assert!(matches!(step, AuthStep::Exchange { .. }));
    assert!(matches!(auth.open_grant(state("second"), pkce()), AuthStep::Wait));
    // the state of the second caller was never issued
    let step = auth.authorized(Ok((AuthorizationCode::new("code".to_string()), state("second"))));
    assert!(matches!(step, AuthStep::Done(Err(TokenError::StateMismatch))));
    assert!(auth.exchanged_at(Ok(grant("abc", "def", 3600)), NOW).is_ok());
    assert!(matches!(auth.open_grant(state("second"), pkce()), AuthStep::Authorize { .. }));
}

#[test]
fn an_abandoned_grant_makes_room() {
    let mut auth = manager();
    auth.set_callback();
    assert!(matches!(auth.regenerate(), AuthStep::Authorize { .. }));
    assert!(matches!(auth.regenerate(), AuthStep::Wait));
    auth.abandon_grant();
    assert!(matches!(auth.regenerate(), AuthStep::Authorize { .. }));
}

#[test]
fn authorization_url_carries_the_request() {
    let mut auth = manager();
    auth.set_callback();
    auth.add_scope(Scope::new("animelist".to_string()));
    auth.add_scope(Scope::new("profile".to_string()));
    let (url, issued) = match auth.open_grant(state("st4te"), pkce()) {
        AuthStep::Authorize { url, state } => (url, state),
        _ => panic!("no authorization URL went out"),
    };
    assert_eq!(issued.secret(), "st4te");
    assert_eq!(
        url,
        "https://animeschedule.net/api/v3/oauth2/authorize?response_type=code&client_id=client\
         &state=st4te&code_challenge=7w_YNF9DSfIdPf_pRjSq646_kPr-2-o9NAl16JGghdM\
         &code_challenge_method=S256&redirect_uri=http%3A%2F%2Flocalhost%3A8080%2Fcallback\
         &scope=animelist+profile"
    );
}

#[test]
fn scopes_added_later_reach_only_the_next_grant() {
    let mut auth = manager();
    auth.set_callback();
    let first = match auth.open_grant(state("s"), pkce()) {
        AuthStep::Authorize { url, .. } => url,
        _ => panic!("no authorization URL went out"),
    };
    assert!(!first.contains("scope="));
    auth.add_scope(Scope::new("animelist".to_string()));
    auth.abandon_grant();
    let second = match auth.open_grant(state("s"), pkce()) {
        AuthStep::Authorize { url, .. } => url,
        _ => panic!("no authorization URL went out"),
    };
    assert!(second.contains("scope=animelist"));
    assert_eq!(auth.scopes()[0].as_str(), "animelist");
}

#[test]
fn fresh_states_and_verifiers_differ() {
    let a = CsrfToken::new_random();
    let b = CsrfToken::new_random();
    assert!(!a.matches(&b));
    assert!(a.matches(&a.clone()));
    assert_eq!(a.secret().len(), 22);
    assert_eq!(b.secret().len(), 22);
    assert!(a.secret().bytes().all(|c| c.is_ascii_alphanumeric() || c == b'-' || c == b'_'));
    let v = PkceCodeVerifier::new_random();
    let w = PkceCodeVerifier::new_random();
    assert_eq!(v.secret().len(), 43);
    assert_ne!(v.secret(), w.secret());
}

#[test]
fn verifier_length_is_checked() {
    assert!(PkceCodeVerifier::new("v".repeat(42)).is_none());
    assert!(PkceCodeVerifier::new("v".repeat(43)).is_some());
    assert!(PkceCodeVerifier::new("v".repeat(128)).is_some());
    assert!(PkceCodeVerifier::new("v".repeat(129)).is_none());
    // the length is counted in bytes
    assert!(PkceCodeVerifier::new("é".repeat(22)).is_some());
    assert!(PkceCodeVerifier::new("é".repeat(21)).is_none());
}

#[test]
fn redirect_url_must_parse() {
    assert!(RedirectUrl::new("http://localhost/callback".to_string()).is_ok());
    assert!(RedirectUrl::new("not a url".to_string()).is_err());
    assert!(RedirectUrl::new(String::new()).is_err());
}

#[test]
fn revocation_is_a_no_op_without_a_token() {
    let auth = manager();
    assert!(matches!(auth.revoke_token(), AuthStep::Done(Ok(()))));
    assert!(matches!(auth.revoke_refresh_token(), AuthStep::Done(Ok(()))));
}

#[test]
fn revocation_names_the_token() {
    let auth = with_tokens("abc", "def", NOW);
    match auth.revoke_token() {
        AuthStep::Revoke { subject: RevocableToken::AccessToken(token) } => {
            assert_eq!(token.secret(), "abc")
        },
        _ => panic!("the access token was not named"),
    }
    match auth.revoke_refresh_token() {
        AuthStep::Revoke { subject: RevocableToken::RefreshToken(token) } => {
            assert_eq!(token.secret(), "def")
        },
        _ => panic!("the refresh token was not named"),
    }
    assert!(Auth::revoked(Ok(())).is_ok());
    match Auth::revoked(Err("timeout".to_string())) {
        Err(TokenError::Revoke(text)) => assert_eq!(text, "timeout"),
        _ => panic!("the failure was not reported"),
    }
}

#[test]
fn snapshot_restores_the_credentials() {
    let auth = with_tokens("abc", "def", NOW + 3600);
    let tokens = auth.to_tokens();
    assert_eq!(tokens.access_token.as_ref().unwrap().secret(), "abc");
    assert_eq!(tokens.refresh_token.as_ref().unwrap().secret(), "def");
    assert_eq!(tokens.expires_at, NOW + 3600);
    let restored = tokens.into_auth(
        ClientId::new("client".to_string()),
        ClientSecret::new("hush".to_string()),
        AppToken::new("app".to_string()),
        RedirectUrl::new("http://localhost:8080/callback".to_string()).unwrap(),
    );
    assert_eq!(stored(&restored), stored(&auth));
    assert!(restored.is_valid_at(NOW));
    assert!(restored.scopes().is_empty());
    let empty = AuthTokens { access_token: None, refresh_token: None, expires_at: 0 };
    let restored = empty.into_auth(
        ClientId::new("client".to_string()),
        ClientSecret::new("hush".to_string()),
        AppToken::new("app".to_string()),
        RedirectUrl::new("http://localhost:8080/callback".to_string()).unwrap(),
    );
    assert_eq!(stored(&restored), (None, None, 0));
}

#[test]
fn token_errors_have_messages() {
    assert_eq!(TokenError::Revoke("x".to_string()).message(), "failed to revoke token");
    assert_eq!(TokenError::Callback("x".to_string()).message(), "callback failed");
    assert_eq!(TokenError::Expired.message(), "refresh token is already expired");
    assert_eq!(TokenError::OAuth2("invalid_grant".to_string()).message(), "invalid_grant");
    assert_eq!(TokenError::Refresh.message(), "failed to refresh token");
    assert_eq!(TokenError::Access.message(), "failed to generate access token");
    assert_eq!(TokenError::StateMismatch.message(), "state verification failed");
    let e = RedirectUrl::new("not a url".to_string()).unwrap_err();
    assert_eq!(
        TokenError::Parse(e).message(),
        "failed to parse uri: relative URL without a base"
    );
}

#[test]
fn app_token_keeps_its_secret() {
    let token = AppToken::new("app".to_string());
    assert_eq!(token.secret(), "app");
    assert_eq!(token.clone().secret(), "app");
}
