use crate::api::API_USERS;
use crate::api_request::{is_prepared, ApiRequest, RequestMethod};
use crate::auth::Auth;
use crate::errors::ApiError;
use crate::text::join4;
use vstd::prelude::*;

verus! {

/// The account part of the API.
pub struct AccountApi {}

impl AccountApi {
    /// This part of the API.
    pub fn new() -> Self {
        AccountApi {}
    }

    /// What can be fetched of an account.
    pub fn get(&self) -> AccountApiGet {
        AccountApiGet {}
    }
}

/// What can be fetched of an account.
pub struct AccountApiGet {}

impl AccountApiGet {
    /// The URL of a user's avatar; the user is still to be named.
    pub fn avatar(self) -> (r: AccountApiAvatar)
        ensures
            r.user_id is None,
    {
        AccountApiAvatar { user_id: None }
    }

    /// The URL of a user's banner; the user is still to be named.
    pub fn banner(self) -> (r: AccountApiBanner)
        ensures
            r.user_id is None,
    {
        AccountApiBanner { user_id: None }
    }

    /// A user's stats; the user is still to be named.
    pub fn stats(self) -> (r: AccountApiStats)
        ensures
            r.user_id is None,
    {
        AccountApiStats { user_id: None }
    }
}

/// Where something of a user is: under its name, below the user's id.
pub open spec fn user_url(user_id: Seq<char>, what: Seq<char>) -> Seq<char> {
    API_USERS@ + "/"@ + user_id + what
}

/// Whether `r` is what getting ready the call for something of a user comes
/// to: `UserId` without a user, and else the call, which acts for the
/// application.
pub open spec fn is_user_call(
    r: Result<ApiRequest, ApiError>,
    auth: crate::auth::model::AuthView,
    user_id: Option<String>,
    what: Seq<char>,
) -> bool {
    match user_id {
        Some(id) => is_prepared(r, auth, RequestMethod::Get, user_url(id@, what), false),
        None => r matches Err(ApiError::UserId),
    }
}

/// The URL of a user's avatar.
pub struct AccountApiAvatar {
    pub user_id: Option<String>,
}

impl AccountApiAvatar {
    /// Names the user.
    pub fn user_id(self, user_id: &str) -> (r: Self)
        ensures
            r.user_id is Some && r.user_id->Some_0@ == user_id@,
    {
        let mut out = self;
        out.user_id = Some(user_id.to_owned());
        out
    }

    /// Gets the call ready. Without a user there is no call, but `UserId`.
    pub fn send(&self, auth: &Auth) -> (r: Result<ApiRequest, ApiError>)
        ensures
            is_user_call(r, auth@, self.user_id, "/avatar"@),
    {
        match &self.user_id {
            Some(user_id) => ApiRequest::get(
                auth,
                join4(API_USERS, "/", user_id.as_str(), "/avatar"),
                false,
            ),
            None => Err(ApiError::UserId),
        }
    }
}

/// The URL of a user's banner.
pub struct AccountApiBanner {
    pub user_id: Option<String>,
}

impl AccountApiBanner {
    /// Names the user.
    pub fn user_id(self, user_id: &str) -> (r: Self)
        ensures
            r.user_id is Some && r.user_id->Some_0@ == user_id@,
    {
        let mut out = self;
        out.user_id = Some(user_id.to_owned());
        out
    }

    /// Gets the call ready. Without a user there is no call, but `UserId`.
    pub fn send(&self, auth: &Auth) -> (r: Result<ApiRequest, ApiError>)
        ensures
            is_user_call(r, auth@, self.user_id, "/banner"@),
    {
        match &self.user_id {
            Some(user_id) => ApiRequest::get(
                auth,
                join4(API_USERS, "/", user_id.as_str(), "/banner"),
                false,
            ),
            None => Err(ApiError::UserId),
        }
    }
}

/// A user's stats.
pub struct AccountApiStats {
    pub user_id: Option<String>,
}

impl AccountApiStats {
    /// Names the user.
    pub fn user_id(self, user_id: &str) -> (r: Self)
        ensures
            r.user_id is Some && r.user_id->Some_0@ == user_id@,
    {
        let mut out = self;
        out.user_id = Some(user_id.to_owned());
        out
    }

    /// Gets the call ready. Without a user there is no call, but `UserId`.
    pub fn send(&self, auth: &Auth) -> (r: Result<ApiRequest, ApiError>)
        ensures
            is_user_call(r, auth@, self.user_id, "/stats"@),
    {
        match &self.user_id {
            Some(user_id) => ApiRequest::get(
                auth,
                join4(API_USERS, "/", user_id.as_str(), "/stats"),
                false,
            ),
            None => Err(ApiError::UserId),
        }
    }
}

} // verus!
