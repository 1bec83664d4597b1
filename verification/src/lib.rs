pub mod api;
pub mod api_request;
pub mod auth;
pub mod clock;
pub mod errors;
pub mod numeral;
pub mod objects;
pub mod query;
pub mod rate_limit;
pub mod secrets;
pub mod text;
pub mod utils;

pub use crate::auth::AppToken;
pub use crate::secrets::{
    AccessToken, AuthorizationCode, ClientId, ClientSecret, CsrfToken, RedirectUrl, RefreshToken,
    Scope,
};

use crate::api::account::AccountApi;
use crate::api::anime::AnimeApi;
use crate::api::animelists::AnimeListsApi;
use crate::api::category::CategoryApi;
use crate::api::timetables::TimetablesApi;
use crate::auth::model::{opt_text, AuthView};
use crate::auth::Auth;
use crate::errors::BuilderError;
use vstd::prelude::*;

verus! {

/// A client of the API: the token lifecycle manager, and the way to every
/// part of the API.
pub struct AnimeScheduleClient {
    pub auth: Auth,
}

impl AnimeScheduleClient {
    /// Anime, listed or one by one.
    pub fn anime(&self) -> AnimeApi {
        AnimeApi::new()
    }

    /// The anime lists of users.
    pub fn animelists(&self) -> AnimeListsApi {
        AnimeListsApi::new()
    }

    /// The categories of one kind.
    pub fn categories(&self, category: &str) -> (r: CategoryApi)
        ensures
            r.category_type@ == category@,
    {
        CategoryApi::new(category)
    }

    /// The timetable of a week.
    pub fn timetables(&self) -> TimetablesApi {
        TimetablesApi::new()
    }

    /// The accounts of users.
    pub fn account(&self) -> AccountApi {
        AccountApi::new()
    }
}

/// What a client is built from: a manager, or all that a manager is made of.
pub struct AnimeScheduleBuilder {
    auth: Option<Auth>,
    client_id: Option<ClientId>,
    client_secret: Option<ClientSecret>,
    app_token: Option<AppToken>,
    redirect_url: Option<RedirectUrl>,
}

/// What has been given to a builder so far.
pub struct BuilderView {
    pub auth: Option<AuthView>,
    pub client_id: Option<Seq<char>>,
    pub client_secret: Option<Seq<char>>,
    pub app_token: Option<Seq<char>>,
    pub redirect_url: Option<Seq<char>>,
}

impl BuilderView {
    /// The builder that has been given nothing.
    pub open spec fn empty() -> BuilderView {
        BuilderView {
            auth: None,
            client_id: None,
            client_secret: None,
            app_token: None,
            redirect_url: None,
        }
    }

    /// The first of the fields that a manager is made of that is missing, in
    /// the order in which they are asked for; none is missing where a manager
    /// was given.
    pub open spec fn missing(self) -> Option<Seq<char>> {
        if self.auth is Some {
            None
        } else if self.client_id is None {
            Some("client_id"@)
        } else if self.client_secret is None {
            Some("client_secret"@)
        } else if self.app_token is None {
            Some("app_token"@)
        } else if self.redirect_url is None {
            Some("redirect_url"@)
        } else {
            None
        }
    }

    /// The manager of the client that is built: the one that was given, or a
    /// new one for the client that the fields describe.
    pub open spec fn manager(self) -> AuthView {
        match self.auth {
            Some(auth) => auth,
            None => AuthView::fresh(
                self.client_id->Some_0,
                self.client_secret->Some_0,
                self.app_token->Some_0,
                self.redirect_url->Some_0,
            ),
        }
    }
}

impl View for AnimeScheduleBuilder {
    type V = BuilderView;

    closed spec fn view(&self) -> BuilderView {
        BuilderView {
            auth: match self.auth {
                Some(auth) => Some(auth@),
                None => None,
            },
            client_id: opt_text(self.client_id),
            client_secret: opt_text(self.client_secret),
            app_token: opt_text(self.app_token),
            redirect_url: opt_text(self.redirect_url),
        }
    }
}

impl Default for AnimeScheduleBuilder {
    fn default() -> (r: Self)
        ensures
            r@ == BuilderView::empty(),
    {
        AnimeScheduleBuilder {
            auth: None,
            client_id: None,
            client_secret: None,
            app_token: None,
            redirect_url: None,
        }
    }
}

impl AnimeScheduleBuilder {
    /// A builder that has been given nothing yet.
    pub fn new() -> (r: Self)
        ensures
            r@ == BuilderView::empty(),
    {
        AnimeScheduleBuilder {
            auth: None,
            client_id: None,
            client_secret: None,
            app_token: None,
            redirect_url: None,
        }
    }

    /// Gives the manager to use. With it, none of the other fields is needed.
    pub fn auth(self, auth: Auth) -> (r: Self)
        ensures
            r@ == (BuilderView { auth: Some(auth@), ..self@ }),
    {
        let mut out = self;
        out.auth = Some(auth);
        out
    }

    /// Gives the client identifier for a new manager.
    pub fn client_id(self, client_id: ClientId) -> (r: Self)
        ensures
            r@ == (BuilderView { client_id: Some(client_id@), ..self@ }),
    {
        let mut out = self;
        out.client_id = Some(client_id);
        out
    }

    /// Gives the client secret for a new manager.
    pub fn client_secret(self, client_secret: ClientSecret) -> (r: Self)
        ensures
            r@ == (BuilderView { client_secret: Some(client_secret@), ..self@ }),
    {
        let mut out = self;
        out.client_secret = Some(client_secret);
        out
    }

    /// Gives the app token for a new manager.
    pub fn app_token(self, app_token: AppToken) -> (r: Self)
        ensures
            r@ == (BuilderView { app_token: Some(app_token@), ..self@ }),
    {
        let mut out = self;
        out.app_token = Some(app_token);
        out
    }

    /// Gives the redirect URI for a new manager.
    pub fn redirect_url(self, redirect_url: RedirectUrl) -> (r: Self)
        ensures
            r@ == (BuilderView { redirect_url: Some(redirect_url@), ..self@ }),
    {
        let mut out = self;
        out.redirect_url = Some(redirect_url);
        out
    }

    /// Builds the client. Its manager is the one that was given; without one,
    /// it is a new manager made of the four fields, and the first of them
    /// that is missing is named in the error.
    pub fn build(self) -> (r: Result<AnimeScheduleClient, BuilderError>)
        ensures
            match self@.missing() {
                Some(field) => r matches Err(BuilderError::Builder(name)) && name@ == field,
                None => r matches Ok(client) && client.auth@ == self@.manager(),
            },
    {
        let auth = match self.auth {
            Some(auth) => auth,
            None => {
                let client_id = match self.client_id {
                    Some(v) => v,
                    None => {
                        return Err(BuilderError::Builder("client_id".to_owned()));
                    },
                };
                let client_secret = match self.client_secret {
                    Some(v) => v,
                    None => {
                        return Err(BuilderError::Builder("client_secret".to_owned()));
                    },
                };
                let app_token = match self.app_token {
                    Some(v) => v,
                    None => {
                        return Err(BuilderError::Builder("app_token".to_owned()));
                    },
                };
                let redirect_url = match self.redirect_url {
                    Some(v) => v,
                    None => {
                        return Err(BuilderError::Builder("redirect_url".to_owned()));
                    },
                };
                Auth::new(client_id, client_secret, app_token, redirect_url)
            },
        };
        Ok(AnimeScheduleClient { auth })
    }
}

} // verus!
