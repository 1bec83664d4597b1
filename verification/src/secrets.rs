use vstd::prelude::*;

verus! {

/// Short-lived bearer secret that authorizes calls on behalf of a user.
pub struct AccessToken(String);

impl View for AccessToken {
    type V = Seq<char>;

    closed spec fn view(&self) -> Seq<char> {
        self.0@
    }
}

impl Clone for AccessToken {
    fn clone(&self) -> (r: Self)
        ensures
            r == *self,
    {
        AccessToken(self.0.clone())
    }
}

impl AccessToken {
    /// Wraps `s` as an access token.
    pub fn new(s: String) -> (r: Self)
        ensures
            r@ == s@,
    {
        AccessToken(s)
    }

    /// The secret itself. Leaking it may compromise the OAuth2 flow.
    pub fn secret(&self) -> (r: &String)
        ensures
            r@ == self@,
    {
        &self.0
    }
}

/// Secret that is exchanged for a new access token without a new interactive grant.
pub struct RefreshToken(String);

impl View for RefreshToken {
    type V = Seq<char>;

    closed spec fn view(&self) -> Seq<char> {
        self.0@
    }
}

impl Clone for RefreshToken {
    fn clone(&self) -> (r: Self)
        ensures
            r == *self,
    {
        RefreshToken(self.0.clone())
    }
}

impl RefreshToken {
    /// Wraps `s` as a refresh token.
    pub fn new(s: String) -> (r: Self)
        ensures
            r@ == s@,
    {
        RefreshToken(s)
    }

    /// The secret itself. Leaking it may compromise the OAuth2 flow.
    pub fn secret(&self) -> (r: &String)
        ensures
            r@ == self@,
    {
        &self.0
    }
}

/// Password issued to the client when it was registered.
pub struct ClientSecret(String);

impl View for ClientSecret {
    type V = Seq<char>;

    closed spec fn view(&self) -> Seq<char> {
        self.0@
    }
}

impl Clone for ClientSecret {
    fn clone(&self) -> (r: Self)
        ensures
            r == *self,
    {
        ClientSecret(self.0.clone())
    }
}

impl ClientSecret {
    /// Wraps `s` as a client secret.
    pub fn new(s: String) -> (r: Self)
        ensures
            r@ == s@,
    {
        ClientSecret(s)
    }

    /// The secret itself. Leaking it may compromise the OAuth2 flow.
    pub fn secret(&self) -> (r: &String)
        ensures
            r@ == self@,
    {
        &self.0
    }
}

/// Code that the authorization endpoint hands back through the redirect.
pub struct AuthorizationCode(String);

impl View for AuthorizationCode {
    type V = Seq<char>;

    closed spec fn view(&self) -> Seq<char> {
        self.0@
    }
}

impl Clone for AuthorizationCode {
    fn clone(&self) -> (r: Self)
        ensures
            r == *self,
    {
        AuthorizationCode(self.0.clone())
    }
}

impl AuthorizationCode {
    /// Wraps `s` as an authorization code.
    pub fn new(s: String) -> (r: Self)
        ensures
            r@ == s@,
    {
        AuthorizationCode(s)
    }

    /// The secret itself. Leaking it may compromise the OAuth2 flow.
    pub fn secret(&self) -> (r: &String)
        ensures
            r@ == self@,
    {
        &self.0
    }
}

/// Identifier issued to the client when it was registered.
#[derive(Debug)]
pub struct ClientId(String);

impl View for ClientId {
    type V = Seq<char>;

    closed spec fn view(&self) -> Seq<char> {
        self.0@
    }
}

impl Clone for ClientId {
    fn clone(&self) -> (r: Self)
        ensures
            r == *self,
    {
        ClientId(self.0.clone())
    }
}

impl ClientId {
    /// Wraps `s` as a client identifier.
    pub fn new(s: String) -> (r: Self)
        ensures
            r@ == s@,
    {
        ClientId(s)
    }

    /// The text that was wrapped.
    pub fn as_str(&self) -> (r: &str)
        ensures
            r@ == self@,
    {
        self.0.as_str()
    }
}

/// One permission requested at the next interactive grant.
#[derive(Debug)]
pub struct Scope(String);

impl View for Scope {
    type V = Seq<char>;

    closed spec fn view(&self) -> Seq<char> {
        self.0@
    }
}

impl Clone for Scope {
    fn clone(&self) -> (r: Self)
        ensures
            r == *self,
    {
        Scope(self.0.clone())
    }
}

impl Scope {
    /// Wraps `s` as a scope.
    pub fn new(s: String) -> (r: Self)
        ensures
            r@ == s@,
    {
        Scope(s)
    }

    /// The text that was wrapped.
    pub fn as_str(&self) -> (r: &str)
        ensures
            r@ == self@,
    {
        self.0.as_str()
    }
}

/// The number of bytes in a state that `CsrfToken::new_random` makes.
pub const CSRF_STATE_LEN: usize = 22;

/// Random per-attempt value that ties a redirect to the request that started it.
pub struct CsrfToken(String);

impl View for CsrfToken {
    type V = Seq<char>;

    closed spec fn view(&self) -> Seq<char> {
        self.0@
    }
}

impl Clone for CsrfToken {
    fn clone(&self) -> (r: Self)
        ensures
            r == *self,
    {
        CsrfToken(self.0.clone())
    }
}

impl CsrfToken {
    /// Wraps `s` as a CSRF state.
    pub fn new(s: String) -> (r: Self)
        ensures
            r@ == s@,
    {
        CsrfToken(s)
    }

    /// A fresh, unpredictable state: 16 random bytes, written as the 22
    /// characters of their URL-safe base64 without padding.
    pub fn new_random() -> (r: Self)
        ensures
            vstd::utf8::encode_utf8(r@).len() == CSRF_STATE_LEN,
    {
        CsrfToken(random_state())
    }

    /// The secret itself. Leaking it may compromise the OAuth2 flow.
    pub fn secret(&self) -> (r: &String)
        ensures
            r@ == self@,
    {
        &self.0
    }

    /// Whether both states hold the same text.
    pub fn matches(&self, other: &CsrfToken) -> (r: bool)
        ensures
            r == (self@ == other@),
    {
        self.0 == other.0
    }
}

/// The redirect URI registered for the client. `new` accepts only a text that
/// parses as a URL.
#[derive(Debug)]
pub struct RedirectUrl(String);

impl View for RedirectUrl {
    type V = Seq<char>;

    closed spec fn view(&self) -> Seq<char> {
        self.0@
    }
}

impl Clone for RedirectUrl {
    fn clone(&self) -> (r: Self)
        ensures
            r == *self,
    {
        proof {
            use_type_invariant(self);
        }
        RedirectUrl(self.0.clone())
    }
}

impl RedirectUrl {
    #[verifier::type_invariant]
    spec fn well_formed(self) -> bool {
        url_parses(self.0@)
    }

    /// Wraps `url` if it parses as a URL, and hands back the parser's error if not.
    pub fn new(url: String) -> (r: Result<Self, oauth2::url::ParseError>)
        ensures
            r is Ok <==> url_parses(url@),
            r matches Ok(u) ==> u@ == url@,
    {
        match check_url(url.as_str()) {
            Ok(()) => Ok(RedirectUrl(url)),
            Err(e) => Err(e),
        }
    }

    /// The text that was wrapped.
    pub fn as_str(&self) -> (r: &str)
        ensures
            r@ == self@,
            url_parses(r@),
    {
        proof {
            use_type_invariant(self);
        }
        self.0.as_str()
    }

}

/// Smallest number of bytes in a PKCE code verifier.
pub const PKCE_VERIFIER_MIN: usize = 43;

/// Largest number of bytes in a PKCE code verifier.
pub const PKCE_VERIFIER_MAX: usize = 128;

/// Whether `text` has a length, in bytes, that a PKCE code verifier may have.
pub open spec fn pkce_length_ok(text: Seq<char>) -> bool {
    PKCE_VERIFIER_MIN <= vstd::utf8::encode_utf8(text).len() <= PKCE_VERIFIER_MAX
}

/// PKCE code verifier of one grant attempt. It never leaves the process but
/// for the token exchange that ends the attempt.
pub struct PkceCodeVerifier(String);

impl View for PkceCodeVerifier {
    type V = Seq<char>;

    closed spec fn view(&self) -> Seq<char> {
        self.0@
    }
}

impl Clone for PkceCodeVerifier {
    fn clone(&self) -> (r: Self)
        ensures
            r == *self,
    {
        proof {
            use_type_invariant(self);
        }
        PkceCodeVerifier(self.0.clone())
    }
}

impl PkceCodeVerifier {
    #[verifier::type_invariant]
    spec fn well_formed(self) -> bool {
        pkce_length_ok(self.0@)
    }

    /// Wraps `s` if its length is one a verifier may have.
    pub fn new(s: String) -> (r: Option<Self>)
        ensures
            r is Some <==> pkce_length_ok(s@),
            r matches Some(v) ==> v@ == s@,
    {
        let n = s.as_str().as_bytes().len();
        if PKCE_VERIFIER_MIN <= n && n <= PKCE_VERIFIER_MAX {
            Some(PkceCodeVerifier(s))
        } else {
            None
        }
    }

    /// A fresh, unpredictable verifier.
    pub fn new_random() -> (r: Self)
        ensures
            pkce_length_ok(r@),
    {
        PkceCodeVerifier(random_verifier())
    }

    /// The secret itself. Leaking it may compromise the OAuth2 flow.
    pub fn secret(&self) -> (r: &String)
        ensures
            r@ == self@,
            pkce_length_ok(r@),
    {
        proof {
            use_type_invariant(self);
        }
        &self.0
    }
}

/// The error of the `url` crate's parser, carried through unread.
#[verifier::external_type_specification]
#[verifier::external_body]
pub struct ExParseError(oauth2::url::ParseError);

/// Whether the `url` crate's parser accepts a text as an absolute URL.
pub uninterp spec fn url_parses(text: Seq<char>) -> bool;

/// The authorization URL that the `oauth2` crate builds for a code grant with
/// an S256 PKCE challenge: the endpoint, with the client, the state, the
/// challenge of the verifier, the redirect URI and the scopes as its query.
pub uninterp spec fn authorize_url_text(
    endpoint: Seq<char>,
    client_id: Seq<char>,
    redirect_url: Seq<char>,
    scopes: Seq<Seq<char>>,
    verifier: Seq<char>,
    state: Seq<char>,
) -> Seq<char>;

/// `url::Url::parse`, keeping only whether it succeeds: `Ok` exactly for the
/// texts that the parser accepts, and the parser's own error otherwise.
#[verifier::external_body]
fn check_url(text: &str) -> (r: Result<(), oauth2::url::ParseError>)
    ensures
        r is Ok <==> url_parses(text@),
{
    match oauth2::url::Url::parse(text) {
        Ok(_) => Ok(()),
        Err(e) => Err(e),
    }
}

/// `oauth2::CsrfToken::new_random`: 16 random bytes in URL-safe base64
/// without padding, which is 22 ASCII characters. Nothing else is claimed of
/// the text.
#[verifier::external_body]
fn random_state() -> (r: String)
    ensures
        vstd::utf8::encode_utf8(r@).len() == 22,
{
    oauth2::CsrfToken::new_random().secret().clone()
}

/// The verifier half of `oauth2::PkceCodeChallenge::new_random_sha256`: 32
/// random bytes in URL-safe base64 without padding, which is 43 ASCII
/// characters.
#[verifier::external_body]
fn random_verifier() -> (r: String)
    ensures
        vstd::utf8::encode_utf8(r@).len() == 43,
{
    oauth2::PkceCodeChallenge::new_random_sha256().1.secret().clone()
}

/// The views of `scopes`, in order.
pub open spec fn scope_texts(scopes: Seq<Scope>) -> Seq<Seq<char>> {
    scopes.map_values(|s: Scope| s@)
}

/// `oauth2::AuthorizationRequest::url` on a client made of `endpoint`,
/// `client_id` and `redirect_url`, with `scopes`, `state` and the S256
/// challenge of `verifier`. It fails exactly where `oauth2::AuthUrl::new` or
/// `oauth2::RedirectUrl::new` does, which is where `url::Url::parse` rejects
/// the text. The length demanded of `verifier` is the one that
/// `PkceCodeChallenge::from_code_verifier_sha256` asserts.
#[verifier::external_body]
pub(crate) fn authorize_url(
    endpoint: &str,
    client_id: &ClientId,
    redirect_url: &RedirectUrl,
    scopes: &Vec<Scope>,
    verifier: &PkceCodeVerifier,
    state: &CsrfToken,
) -> (r: Result<String, oauth2::url::ParseError>)
    requires
        pkce_length_ok(verifier@),
    ensures
        r is Ok <==> (url_parses(endpoint@) && url_parses(redirect_url@)),
        r matches Ok(url) ==> url@ == authorize_url_text(
            endpoint@,
            client_id@,
            redirect_url@,
            scope_texts(scopes@),
            verifier@,
            state@,
        ),
{
    let auth = oauth2::AuthUrl::new(endpoint.to_owned())?;
    let back = oauth2::RedirectUrl::new(redirect_url.0.clone())?;
    let id = oauth2::ClientId::new(client_id.0.clone());
    let client = oauth2::basic::BasicClient::new(id, None, auth, None).set_redirect_uri(back);
    let verifier = oauth2::PkceCodeVerifier::new(verifier.0.clone());
    let challenge = oauth2::PkceCodeChallenge::from_code_verifier_sha256(&verifier);
    let state = oauth2::CsrfToken::new(state.0.clone());
    let scopes = scopes.iter().map(|s| oauth2::Scope::new(s.0.clone()));
    let request = client.authorize_url(|| state).add_scopes(scopes);
    Ok(request.set_pkce_challenge(challenge).url().0.to_string())
}

} // verus!
