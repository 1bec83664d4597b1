use animeschedule::auth::{AppToken, Auth};
use animeschedule::errors::BuilderError;
use animeschedule::secrets::{AccessToken, ClientId, ClientSecret, RedirectUrl};
use animeschedule::AnimeScheduleBuilder;

fn redirect() -> RedirectUrl {
    RedirectUrl::new("http://localhost:8080/callback".to_string()).unwrap()
}

fn missing(builder: AnimeScheduleBuilder) -> String {
    match builder.build() {
        Err(BuilderError::Builder(name)) => name,
        _ => panic!("the client was built"),
    }
}

#[test]
fn builder_names_the_first_missing_field() {
    assert_eq!(missing(AnimeScheduleBuilder::new()), "client_id");
    assert_eq!(missing(AnimeScheduleBuilder::default()), "client_id");
    let b = AnimeScheduleBuilder::new().client_id(ClientId::new("client".to_string()));
    assert_eq!(missing(b), "client_secret");
    let b = AnimeScheduleBuilder::new()
        .client_id(ClientId::new("client".to_string()))
        .client_secret(ClientSecret::new("hush".to_string()));
    assert_eq!(missing(b), "app_token");
    let b = AnimeScheduleBuilder::new()
        .client_id(ClientId::new("client".to_string()))
        .client_secret(ClientSecret::new("hush".to_string()))
        .app_token(AppToken::new("app".to_string()));
    assert_eq!(missing(b), "redirect_url");
    let b = AnimeScheduleBuilder::new()
        .redirect_url(redirect())
        .app_token(AppToken::new("app".to_string()))
        .client_secret(ClientSecret::new("hush".to_string()));
    assert_eq!(missing(b), "client_id");
}

#[test]
fn builder_makes_a_new_manager_from_the_fields() {
    let client = AnimeScheduleBuilder::new()
        .client_id(ClientId::new("client".to_string()))
        .client_secret(ClientSecret::new("hush".to_string()))
        .app_token(AppToken::new("app".to_string()))
        .redirect_url(redirect())
        .build()
        .unwrap();
    assert_eq!(client.auth.client_id().as_str(), "client");
    assert_eq!(client.auth.client_secret().secret(), "hush");
    assert_eq!(client.auth.app_token().secret(), "app");
    assert_eq!(client.auth.redirect_url().as_str(), "http://localhost:8080/callback");
    assert!(client.auth.access_token().is_none());
    assert!(client.auth.refresh_token().is_none());
    assert_eq!(client.auth.expires_at(), 0);
}

#[test]
fn builder_prefers_the_manager_it_was_given() {
    let mut auth = Auth::new(
        ClientId::new("given".to_string()),
        ClientSecret::new("hush".to_string()),
        AppToken::new("app".to_string()),
        redirect(),
    );
    auth.set_access_token_unchecked(AccessToken::new("abc".to_string()));
    auth.set_expires_at_unchecked(77);
    let client = AnimeScheduleBuilder::new()
        .client_id(ClientId::new("other".to_string()))
        .auth(auth)
        .build()
        .unwrap();
    assert_eq!(client.auth.client_id().as_str(), "given");
    assert_eq!(client.auth.access_token().unwrap().secret(), "abc");
    assert_eq!(client.auth.expires_at(), 77);
}

#[test]
fn client_leads_to_every_part_of_the_api() {
    let client = AnimeScheduleBuilder::new()
        .client_id(ClientId::new("client".to_string()))
        .client_secret(ClientSecret::new("hush".to_string()))
        .app_token(AppToken::new("app".to_string()))
        .redirect_url(redirect())
        .build()
        .unwrap();
    let auth = &client.auth;
    assert_eq!(
        client.anime().get().send(auth).unwrap().url,
        "https://animeschedule.net/api/v3/anime?"
    );
    assert_eq!(
        client.categories("genres").get().send(auth).unwrap().url,
        "https://animeschedule.net/api/v3/categories/genres?"
    );
    assert_eq!(
        client.timetables().get().send(auth).unwrap().url,
        "https://animeschedule.net/api/v3/timetables?"
    );
    assert_eq!(
        client.account().get().stats().user_id("u1").send(auth).unwrap().url,
        "https://animeschedule.net/api/v3/users/u1/stats"
    );
    assert_eq!(
        client.animelists().get().user_id("u1").send(auth).unwrap().url,
        "https://animeschedule.net/api/v3/animelists/u1"
    );
}
