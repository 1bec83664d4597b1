use crate::auth::model::{lifetime_fits, AuthView, TokenGrantView};
use crate::auth::Auth;
use crate::clock::now_utc_seconds;
use crate::errors::ApiError;
use crate::rate_limit::{header_texts, RateLimit};
use crate::utils::{json_parses, IsJson};
use vstd::prelude::*;

verus! {

/// The HTTP methods that the API is called with.
#[derive(Copy, Clone, Debug, PartialEq, Eq, Structural)]
pub enum RequestMethod {
    Get,
    Put,
    Delete,
}

/// The credential that a call is to carry at `now`: the access token for a
/// user-scoped call, which has none while the access token is not valid, and
/// the app token for every other call.
pub open spec fn bearer_at(auth: AuthView, user_scoped: bool, now: u64) -> Option<Seq<char>> {
    if !user_scoped {
        Some(auth.app_token)
    } else if auth.is_valid_at(now) {
        auth.access_token
    } else {
        None
    }
}

/// Whether `status` is an HTTP client or server error.
pub open spec fn is_error_status(status: u16) -> bool {
    400 <= status < 600
}

/// Whether `r` is what getting a call ready at `now` comes to: the call with
/// the credential that it is to carry, or `AccessTokenError` where there is
/// none to carry.
pub open spec fn is_prepared_at(
    r: Result<ApiRequest, ApiError>,
    auth: AuthView,
    method: RequestMethod,
    url: Seq<char>,
    user_scoped: bool,
    now: u64,
) -> bool {
    match bearer_at(auth, user_scoped, now) {
        Some(bearer) => r is Ok && r->Ok_0.is_call(method, url, user_scoped, bearer),
        None => r matches Err(ApiError::AccessTokenError),
    }
}

/// Whether `r` is what getting a call ready comes to at some second.
pub open spec fn is_prepared(
    r: Result<ApiRequest, ApiError>,
    auth: AuthView,
    method: RequestMethod,
    url: Seq<char>,
    user_scoped: bool,
) -> bool {
    exists|now: u64| #[trigger] is_prepared_at(r, auth, method, url, user_scoped, now)
}

/// Whether `r` is what a response with this status, rate limit and body
/// comes to.
///
/// Without a rate limit the response is refused as `RateLimit`. With an error
/// status, or a body that is not JSON, it is an `ApiError` that carries the
/// status and the raw body. Otherwise the rate limit and the body are handed
/// on, for the body to be decoded.
pub open spec fn is_sorted(
    r: Result<(RateLimit, String), ApiError>,
    status: u16,
    limit: Option<RateLimit>,
    is_json: bool,
    body: Seq<char>,
) -> bool {
    match limit {
        None => r matches Err(ApiError::RateLimit),
        Some(limit) => if is_error_status(status) || !is_json {
            r matches Err(ApiError::ApiError { status: s, error }) && s == status && error@ == body
        } else {
            r matches Ok(pair) && pair.0 == limit && pair.1@ == body
        },
    }
}

/// A call that is ready to go out: where to, how, and with which credential.
pub struct ApiRequest {
    pub method: RequestMethod,
    pub url: String,
    /// The secret for the `Authorization: Bearer` header.
    pub bearer: String,
    /// Whether the call acts for the user, with the access token, or for the
    /// application, with the app token.
    pub user_scoped: bool,
}

impl ApiRequest {
    /// Whether this is the call to `url` by `method` that carries `bearer`.
    pub open spec fn is_call(
        self,
        method: RequestMethod,
        url: Seq<char>,
        user_scoped: bool,
        bearer: Seq<char>,
    ) -> bool {
        &&& self.method == method
        &&& self.url@ == url
        &&& self.user_scoped == user_scoped
        &&& self.bearer@ == bearer
    }

    /// Gets a call to `url` ready at `now`.
    ///
    /// A user-scoped call carries the access token and is refused with
    /// `AccessTokenError` while that token is not valid: nothing goes out that
    /// is known to be unauthenticated. Every other call carries the app token.
    pub fn prepare_at(auth: &Auth, url: String, method: RequestMethod, is_auth: bool, now: u64) -> (r:
        Result<ApiRequest, ApiError>)
        ensures
            is_prepared_at(r, auth@, method, url@, is_auth, now),
    {
        let bearer = if is_auth {
            if !auth.is_valid_at(now) {
                return Err(ApiError::AccessTokenError);
            }
            match auth.access_token() {
                Some(token) => token.secret().clone(),
                None => {
                    return Err(ApiError::AccessTokenError);
                },
            }
        } else {
            auth.app_token().secret().clone()
        };
        Ok(ApiRequest { method, url, bearer, user_scoped: is_auth })
    }

    /// Gets a call to `url` ready at the present second.
    pub fn prepare(auth: &Auth, url: String, method: RequestMethod, is_auth: bool) -> (r: Result<
        ApiRequest,
        ApiError,
    >)
        ensures
            is_prepared(r, auth@, method, url@, is_auth),
    {
        let now = now_utc_seconds();
        let r = Self::prepare_at(auth, url, method, is_auth, now);
        assert(is_prepared_at(r, auth@, method, url@, is_auth, now));
        r
    }

    /// Gets a `GET` of `url` ready at the present second.
    pub fn get(auth: &Auth, url: String, is_auth: bool) -> (r: Result<ApiRequest, ApiError>)
        ensures
            is_prepared(r, auth@, RequestMethod::Get, url@, is_auth),
    {
        Self::prepare(auth, url, RequestMethod::Get, is_auth)
    }

    /// Gets a `DELETE` of `url` ready at the present second.
    pub fn delete(auth: &Auth, url: String, is_auth: bool) -> (r: Result<ApiRequest, ApiError>)
        ensures
            is_prepared(r, auth@, RequestMethod::Delete, url@, is_auth),
    {
        Self::prepare(auth, url, RequestMethod::Delete, is_auth)
    }

    /// Gets a `PUT` to `url` ready at the present second.
    pub fn put(auth: &Auth, url: String, is_auth: bool) -> (r: Result<ApiRequest, ApiError>)
        ensures
            is_prepared(r, auth@, RequestMethod::Put, url@, is_auth),
    {
        Self::prepare(auth, url, RequestMethod::Put, is_auth)
    }

    /// Sorts a response whose rate limit has been read and whose body has
    /// been tested for JSON.
    pub fn sort_response(status: u16, limit: Option<RateLimit>, is_json: bool, body: String) -> (r:
        Result<(RateLimit, String), ApiError>)
        ensures
            is_sorted(r, status, limit, is_json, body@),
    {
        match limit {
            None => Err(ApiError::RateLimit),
            Some(limit) => {
                if (400 <= status && status < 600) || !is_json {
                    Err(ApiError::ApiError { status, error: body })
                } else {
                    Ok((limit, body))
                }
            },
        }
    }

    /// Sorts a response: reads the rate limit from `headers`, tests `body` for
    /// JSON, and decides as `sort_response` does.
    pub fn receive(status: u16, headers: &http::HeaderMap<http::HeaderValue>, body: String) -> (r:
        Result<(RateLimit, String), ApiError>)
        ensures
            is_sorted(
                r,
                status,
                RateLimit::of_headers(header_texts(*headers)),
                json_parses(body@),
                body@,
            ),
    {
        let limit = RateLimit::new(headers);
        let is_json = body.is_json();
        Self::sort_response(status, limit, is_json, body)
    }
}

/// A user-scoped call is refused, before anything goes out, whenever the
/// access token is not valid; with an empty credential store that is at
/// every second. What does go out carries the access token for the user and
/// the app token for the application.
pub proof fn law_no_token_no_call(
    r: Result<ApiRequest, ApiError>,
    auth: AuthView,
    method: RequestMethod,
    url: Seq<char>,
    user_scoped: bool,
)
    requires
        is_prepared(r, auth, method, url, user_scoped),
    ensures
        user_scoped && (auth.access_token is None || auth.expires_at == 0) ==> r matches Err(
            ApiError::AccessTokenError,
        ),
        r is Err ==> user_scoped && r->Err_0 is AccessTokenError,
        r is Ok ==> r->Ok_0.method == method && r->Ok_0.url@ == url && r->Ok_0.user_scoped
            == user_scoped,
        r is Ok && user_scoped ==> Some(r->Ok_0.bearer@) == auth.access_token,
        r is Ok && !user_scoped ==> r->Ok_0.bearer@ == auth.app_token,
        !user_scoped ==> r is Ok,
{
}

/// From the second at which a grant is installed, and for as long as it
/// lasts, user-scoped calls carry the access token of that grant.
pub proof fn law_grant_enables_calls(auth: AuthView, grant: TokenGrantView, now: u64, at: u64)
    requires
        lifetime_fits(now, grant.expires_in),
        now <= at < now + grant.expires_in,
    ensures
        bearer_at(auth.install(grant, now), true, at) == Some(grant.access_token),
        bearer_at(auth.install(grant, now), false, at) == Some(auth.app_token),
{
}

} // verus!
