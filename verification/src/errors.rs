use vstd::prelude::*;
use vstd::string::StringExecFns;

verus! {

/// The error of `serde_json`, carried through unread.
#[verifier::external_type_specification]
#[verifier::external_body]
pub struct ExJsonError(serde_json::Error);

/// The error of `reqwest`, carried through unread.
#[verifier::external_type_specification]
#[verifier::external_body]
pub struct ExTransportError(reqwest::Error);

/// What can go wrong while tokens are acquired, refreshed or revoked.
#[non_exhaustive]
#[derive(Debug)]
pub enum TokenError {
    /// The revocation call failed; carries what the transport or provider said.
    Revoke(String),
    /// The authorization callback failed, or none was installed.
    Callback(String),
    /// The refresh token is already expired.
    Expired,
    /// The provider rejected the refresh exchange; carries its text.
    OAuth2(String),
    /// There is no refresh token to exchange.
    Refresh,
    /// The authorization-code exchange failed.
    Access,
    /// An endpoint or redirect URI is not a URL.
    Parse(oauth2::url::ParseError),
    /// The state that came back is not the state that was issued.
    StateMismatch,
}

/// `TokenError` without the payloads that cannot be read.
pub enum TokenErrorView {
    Revoke(Seq<char>),
    Callback(Seq<char>),
    Expired,
    OAuth2(Seq<char>),
    Refresh,
    Access,
    Parse,
    StateMismatch,
}

impl View for TokenError {
    type V = TokenErrorView;

    open spec fn view(&self) -> TokenErrorView {
        match self {
            TokenError::Revoke(m) => TokenErrorView::Revoke(m@),
            TokenError::Callback(m) => TokenErrorView::Callback(m@),
            TokenError::Expired => TokenErrorView::Expired,
            TokenError::OAuth2(m) => TokenErrorView::OAuth2(m@),
            TokenError::Refresh => TokenErrorView::Refresh,
            TokenError::Access => TokenErrorView::Access,
            TokenError::Parse(_) => TokenErrorView::Parse,
            TokenError::StateMismatch => TokenErrorView::StateMismatch,
        }
    }
}

/// The view of the outcome of a token operation.
pub open spec fn outcome_view(r: Result<(), TokenError>) -> Result<(), TokenErrorView> {
    match r {
        Ok(()) => Ok(()),
        Err(e) => Err(e@),
    }
}

/// `Display` of `url::ParseError`: the parser's description of what it
/// rejected. Nothing is claimed of the text.
#[verifier::external_body]
fn describe_parse_error(e: &oauth2::url::ParseError) -> String {
    format!("{}", e)
}

impl TokenError {
    /// The message of every variant but `OAuth2` and `Parse`, which speak for
    /// themselves.
    pub open spec fn fixed_message(self) -> Seq<char> {
        match self {
            TokenError::Revoke(_) => "failed to revoke token"@,
            TokenError::Callback(_) => "callback failed"@,
            TokenError::Expired => "refresh token is already expired"@,
            TokenError::Refresh => "failed to refresh token"@,
            TokenError::Access => "failed to generate access token"@,
            TokenError::StateMismatch => "state verification failed"@,
            _ => Seq::empty(),
        }
    }

    /// What a user is told about this error.
    pub fn message(&self) -> (r: String)
        ensures
            self matches TokenError::OAuth2(m) ==> r@ == m@,
            self matches TokenError::Parse(_) ==> "failed to parse uri: "@.is_prefix_of(r@),
            !(self is OAuth2 || self is Parse) ==> r@ == self.fixed_message(),
    {
        match self {
            TokenError::Revoke(_) => "failed to revoke token".to_owned(),
            TokenError::Callback(_) => "callback failed".to_owned(),
            TokenError::Expired => "refresh token is already expired".to_owned(),
            TokenError::OAuth2(m) => m.clone(),
            TokenError::Refresh => "failed to refresh token".to_owned(),
            TokenError::Access => "failed to generate access token".to_owned(),
            TokenError::Parse(e) => {
                let detail = describe_parse_error(e);
                "failed to parse uri: ".to_owned().concat(detail.as_str())
            },
            TokenError::StateMismatch => "state verification failed".to_owned(),
        }
    }
}

/// What can go wrong with one call of the API.
#[non_exhaustive]
#[derive(Debug)]
pub enum ApiError {
    /// The body is JSON, but not of the shape that the endpoint declares.
    ParseError(serde_json::Error),
    /// A user-scoped call was asked for without a usable access token.
    AccessTokenError,
    /// The API answered with an error status or with a body that is not JSON;
    /// carries the raw body.
    ApiError { status: u16, error: String },
    /// The transport failed.
    Reqwest(reqwest::Error),
    /// One of the three rate-limit headers is missing or is not a number.
    RateLimit,
    /// The route needs an ETag.
    Etag,
    /// The import needs its XML.
    Xml,
    /// The call needs a route.
    Route,
    /// The call needs a user id.
    UserId,
}

/// What can go wrong with the manager's credentials as a whole.
#[derive(Debug)]
pub enum ClientError {
    /// The token could not be refreshed.
    Refresh,
    /// A token operation failed.
    Token(TokenError),
    /// The transport failed.
    Reqwest(reqwest::Error),
}

/// What can go wrong while a client is built.
#[non_exhaustive]
#[derive(Debug)]
pub enum BuilderError {
    /// A required field, named here, was not given.
    Builder(String),
    /// The credentials could not be set up.
    Client(ClientError),
    /// The transport could not be set up.
    Reqwest(reqwest::Error),
}

impl From<oauth2::url::ParseError> for TokenError {
    fn from(e: oauth2::url::ParseError) -> (r: Self) {
        TokenError::Parse(e)
    }
}

impl vstd::std_specs::convert::FromSpecImpl<oauth2::url::ParseError> for TokenError {
    open spec fn obeys_from_spec() -> bool {
        true
    }

    open spec fn from_spec(e: oauth2::url::ParseError) -> Self {
        TokenError::Parse(e)
    }
}

impl From<serde_json::Error> for ApiError {
    fn from(e: serde_json::Error) -> (r: Self) {
        ApiError::ParseError(e)
    }
}

impl vstd::std_specs::convert::FromSpecImpl<serde_json::Error> for ApiError {
    open spec fn obeys_from_spec() -> bool {
        true
    }

    open spec fn from_spec(e: serde_json::Error) -> Self {
        ApiError::ParseError(e)
    }
}

impl From<reqwest::Error> for ApiError {
    fn from(e: reqwest::Error) -> (r: Self) {
        ApiError::Reqwest(e)
    }
}

impl vstd::std_specs::convert::FromSpecImpl<reqwest::Error> for ApiError {
    open spec fn obeys_from_spec() -> bool {
        true
    }

    open spec fn from_spec(e: reqwest::Error) -> Self {
        ApiError::Reqwest(e)
    }
}

impl From<TokenError> for ClientError {
    fn from(e: TokenError) -> (r: Self) {
        ClientError::Token(e)
    }
}

impl vstd::std_specs::convert::FromSpecImpl<TokenError> for ClientError {
    open spec fn obeys_from_spec() -> bool {
        true
    }

    open spec fn from_spec(e: TokenError) -> Self {
        ClientError::Token(e)
    }
}

impl From<reqwest::Error> for ClientError {
    fn from(e: reqwest::Error) -> (r: Self) {
        ClientError::Reqwest(e)
    }
}

impl vstd::std_specs::convert::FromSpecImpl<reqwest::Error> for ClientError {
    open spec fn obeys_from_spec() -> bool {
        true
    }

    open spec fn from_spec(e: reqwest::Error) -> Self {
        ClientError::Reqwest(e)
    }
}

impl From<ClientError> for BuilderError {
    fn from(e: ClientError) -> (r: Self) {
        BuilderError::Client(e)
    }
}

impl vstd::std_specs::convert::FromSpecImpl<ClientError> for BuilderError {
    open spec fn obeys_from_spec() -> bool {
        true
    }

    open spec fn from_spec(e: ClientError) -> Self {
        BuilderError::Client(e)
    }
}

impl From<reqwest::Error> for BuilderError {
    fn from(e: reqwest::Error) -> (r: Self) {
        BuilderError::Reqwest(e)
    }
}

impl vstd::std_specs::convert::FromSpecImpl<reqwest::Error> for BuilderError {
    open spec fn obeys_from_spec() -> bool {
        true
    }

    open spec fn from_spec(e: reqwest::Error) -> Self {
        BuilderError::Reqwest(e)
    }
}

/// `Display` of `serde_json::Error`: what the decoder says of the body.
/// Nothing is claimed of the text.
#[verifier::external_body]
fn describe_json_error(e: &serde_json::Error) -> String {
    format!("{}", e)
}

/// `Display` of `reqwest::Error`: what the transport says of its failure.
/// Nothing is claimed of the text.
#[verifier::external_body]
fn describe_transport_error(e: &reqwest::Error) -> String {
    format!("{}", e)
}

/// `Display` of `http::StatusCode`: the number and the reason that goes with
/// it. For a number that is no status code, which
/// `http::StatusCode::from_u16` refuses, it is the number alone. Nothing is
/// claimed of the text.
#[verifier::external_body]
fn describe_status(status: u16) -> String {
    match http::StatusCode::from_u16(status) {
        Ok(code) => format!("{}", code),
        Err(_) => format!("{}", status),
    }
}

impl ApiError {
    /// The message of the variants that carry nothing.
    pub open spec fn fixed_message(self) -> Seq<char> {
        match self {
            ApiError::AccessTokenError => "access token missing"@,
            ApiError::RateLimit => "rate limit headers missing"@,
            ApiError::Etag => "api route requires etag"@,
            ApiError::Xml => "api requires xml to be set"@,
            ApiError::Route => "api requires route"@,
            ApiError::UserId => "api requires user id"@,
            _ => Seq::empty(),
        }
    }

    /// What a user is told about this error. An error of the API is told as
    /// its status, a colon and the raw body.
    pub fn message(&self) -> (r: String)
        ensures
            self matches ApiError::ApiError { error, .. } ==> (": "@ + error@).is_suffix_of(r@),
            !(self is ApiError || self is ParseError || self is Reqwest) ==> r@
                == self.fixed_message(),
    {
        match self {
            ApiError::ParseError(e) => describe_json_error(e),
            ApiError::AccessTokenError => "access token missing".to_owned(),
            ApiError::ApiError { status, error } => {
                let r = describe_status(*status).concat(": ").concat(error.as_str());
                assert(r@.subrange(r@.len() - (": "@ + error@).len(), r@.len() as int) =~= ": "@
                    + error@);
                r
            },
            ApiError::Reqwest(e) => describe_transport_error(e),
            ApiError::RateLimit => "rate limit headers missing".to_owned(),
            ApiError::Etag => "api route requires etag".to_owned(),
            ApiError::Xml => "api requires xml to be set".to_owned(),
            ApiError::Route => "api requires route".to_owned(),
            ApiError::UserId => "api requires user id".to_owned(),
        }
    }
}

impl ClientError {
    /// What a user is told about this error; for a token error, that is what
    /// the token error tells.
    pub fn message(&self) -> (r: String)
        ensures
            self is Refresh ==> r@ == "failed to refresh token"@,
            self matches ClientError::Token(e) ==> (e is OAuth2 || e is Parse || r@
                == e.fixed_message()),
    {
        match self {
            ClientError::Refresh => "failed to refresh token".to_owned(),
            ClientError::Token(e) => e.message(),
            ClientError::Reqwest(e) => describe_transport_error(e),
        }
    }
}

impl BuilderError {
    /// What a user is told about this error.
    pub fn message(&self) -> (r: String)
        ensures
            self matches BuilderError::Builder(name) ==> r@ == "field '"@ + name@ + "' is required"@,
    {
        match self {
            BuilderError::Builder(name) => "field '".to_owned().concat(name.as_str()).concat(
                "' is required",
            ),
            BuilderError::Client(e) => e.message(),
            BuilderError::Reqwest(e) => describe_transport_error(e),
        }
    }
}

} // verus!
