pub mod flow;
pub mod laws;
pub mod model;

use crate::auth::model::{
    lifetime_fits, opt_text, AuthStepView, AuthView, GrantPhaseView, RevocableTokenView, Standing,
    TokenGrantView,
};
use crate::clock::now_utc_seconds;
use crate::errors::{outcome_view, TokenError};
use crate::secrets::{
    scope_texts, AccessToken, AuthorizationCode, ClientId, ClientSecret, CsrfToken,
    PkceCodeVerifier, RedirectUrl, RefreshToken, Scope,
};
use vstd::prelude::*;

verus! {

/// The static credential that identifies the application itself, whoever the
/// user is.
pub struct AppToken(String);

impl View for AppToken {
    type V = Seq<char>;

    closed spec fn view(&self) -> Seq<char> {
        self.0@
    }
}

impl Clone for AppToken {
    fn clone(&self) -> (r: Self)
        ensures
            r == *self,
    {
        AppToken(self.0.clone())
    }
}

impl AppToken {
    /// Wraps `s` as an app token.
    pub fn new(s: String) -> (r: Self)
        ensures
            r@ == s@,
    {
        Self(s)
    }

    /// The secret itself. Leaking it may compromise the OAuth2 flow.
    pub fn secret(&self) -> (r: &String)
        ensures
            r@ == self@,
    {
        &self.0
    }
}

/// What the token endpoint hands out: both tokens and their joint lifetime in
/// seconds.
pub struct TokenGrant {
    pub access_token: AccessToken,
    pub refresh_token: RefreshToken,
    pub expires_in: u64,
}

impl View for TokenGrant {
    type V = TokenGrantView;

    open spec fn view(&self) -> TokenGrantView {
        TokenGrantView {
            access_token: self.access_token@,
            refresh_token: self.refresh_token@,
            expires_in: self.expires_in,
        }
    }
}

/// The view of what a token exchange came to.
pub open spec fn exchange_view(answer: Result<TokenGrant, String>) -> Result<
    TokenGrantView,
    Seq<char>,
> {
    match answer {
        Ok(grant) => Ok(grant@),
        Err(message) => Err(message@),
    }
}

/// The view of what the authorization callback came to.
pub open spec fn callback_view(answer: Result<(AuthorizationCode, CsrfToken), String>) -> Result<
    (Seq<char>, Seq<char>),
    Seq<char>,
> {
    match answer {
        Ok((code, state)) => Ok((code@, state@)),
        Err(message) => Err(message@),
    }
}

/// A token that the revocation endpoint can be asked to revoke.
pub enum RevocableToken {
    AccessToken(AccessToken),
    RefreshToken(RefreshToken),
}

impl View for RevocableToken {
    type V = RevocableTokenView;

    open spec fn view(&self) -> RevocableTokenView {
        match self {
            RevocableToken::AccessToken(t) => RevocableTokenView::AccessToken(t@),
            RevocableToken::RefreshToken(t) => RevocableTokenView::RefreshToken(t@),
        }
    }
}

/// What the caller has to do next on the manager's behalf. The manager
/// decides; the caller talks to the network and to the user, and reports back
/// through the method that the step names.
pub enum AuthStep {
    /// Exchange `token` for a new grant at the token endpoint, then report to
    /// `Auth::refreshed` with the same `escalate`.
    Refresh { token: RefreshToken, escalate: bool },
    /// Hand `url` and `state` to the authorization callback, then report to
    /// `Auth::authorized`.
    Authorize { url: String, state: CsrfToken },
    /// Exchange `code`, with `verifier`, for a grant at the token endpoint,
    /// then report to `Auth::exchanged`.
    Exchange { code: AuthorizationCode, verifier: PkceCodeVerifier },
    /// Ask the revocation endpoint to revoke `subject`, then report to
    /// `Auth::revoked`.
    Revoke { subject: RevocableToken },
    /// Another interactive grant is in flight: start over once it has ended.
    Wait,
    /// The operation has ended, and this is how.
    Done(Result<(), TokenError>),
}

impl View for AuthStep {
    type V = AuthStepView;

    open spec fn view(&self) -> AuthStepView {
        match self {
            AuthStep::Refresh { token, escalate } => AuthStepView::Refresh {
                token: token@,
                escalate: *escalate,
            },
            AuthStep::Authorize { url, state } => AuthStepView::Authorize {
                url: url@,
                state: state@,
            },
            AuthStep::Exchange { code, verifier } => AuthStepView::Exchange {
                code: code@,
                verifier: verifier@,
            },
            AuthStep::Revoke { subject } => AuthStepView::Revoke { subject: subject@ },
            AuthStep::Wait => AuthStepView::Wait,
            AuthStep::Done(r) => AuthStepView::Done(outcome_view(*r)),
        }
    }
}

/// How far the one interactive grant that may be in flight has come.
enum GrantPhase {
    Idle,
    AwaitingCallback { state: CsrfToken, verifier: PkceCodeVerifier },
    Exchanging,
}

impl View for GrantPhase {
    type V = GrantPhaseView;

    closed spec fn view(&self) -> GrantPhaseView {
        match self {
            GrantPhase::Idle => GrantPhaseView::Idle,
            GrantPhase::AwaitingCallback { state, verifier } => GrantPhaseView::AwaitingCallback {
                state: state@,
                verifier: verifier@,
            },
            GrantPhase::Exchanging => GrantPhaseView::Exchanging,
        }
    }
}

/// A snapshot of the credentials that can be persisted: both tokens and their
/// expiry, and nothing else. Who the client is, its scopes and its callback
/// have to be supplied again to turn a snapshot back into a manager.
pub struct AuthTokens {
    pub access_token: Option<AccessToken>,
    pub refresh_token: Option<RefreshToken>,
    pub expires_at: u64,
}

impl AuthTokens {
    /// A manager for the given client that holds these credentials.
    pub fn into_auth(
        self,
        client_id: ClientId,
        client_secret: ClientSecret,
        app_token: AppToken,
        redirect_url: RedirectUrl,
    ) -> (auth: Auth)
        ensures
            auth@ == (AuthView {
                access_token: opt_text(self.access_token),
                refresh_token: opt_text(self.refresh_token),
                expires_at: self.expires_at,
                ..AuthView::fresh(client_id@, client_secret@, app_token@, redirect_url@)
            }),
    {
        let mut auth = Auth::new(client_id, client_secret, app_token, redirect_url);
        auth.access_token = self.access_token;
        auth.refresh_token = self.refresh_token;
        auth.expires_at = self.expires_at;
        auth
    }
}

/// The token lifecycle manager: who the client is, the credential store, and
/// the one interactive grant that may be in flight.
///
/// Both tokens share one expiry, as the provider issues them.
pub struct Auth {
    client_id: ClientId,
    client_secret: ClientSecret,
    redirect_url: RedirectUrl,
    app_token: AppToken,
    access_token: Option<AccessToken>,
    refresh_token: Option<RefreshToken>,
    /// UTC second at which both tokens stop being usable; 0 until a grant or a
    /// setter says otherwise.
    expires_at: u64,
    scopes: Vec<Scope>,
    callback_set: bool,
    grant: GrantPhase,
}

impl View for Auth {
    type V = AuthView;

    closed spec fn view(&self) -> AuthView {
        AuthView {
            client_id: self.client_id@,
            client_secret: self.client_secret@,
            redirect_url: self.redirect_url@,
            app_token: self.app_token@,
            access_token: opt_text(self.access_token),
            refresh_token: opt_text(self.refresh_token),
            expires_at: self.expires_at,
            scopes: scope_texts(self.scopes@),
            callback_set: self.callback_set,
            grant: self.grant@,
        }
    }
}

impl Auth {
    /// A manager for the given client, with an empty credential store.
    pub fn new(
        client_id: ClientId,
        client_secret: ClientSecret,
        app_token: AppToken,
        redirect_uri: RedirectUrl,
    ) -> (auth: Self)
        ensures
            auth@ == AuthView::fresh(client_id@, client_secret@, app_token@, redirect_uri@),
    {
        let auth = Self {
            client_id,
            client_secret,
            redirect_url: redirect_uri,
            app_token,
            access_token: None,
            refresh_token: None,
            expires_at: 0,
            scopes: Vec::new(),
            callback_set: false,
            grant: GrantPhase::Idle,
        };
        assert(scope_texts(auth.scopes@) =~= Seq::empty());
        auth
    }

    /// The credentials as they stand, for safekeeping.
    pub fn to_tokens(&self) -> (tokens: AuthTokens)
        ensures
            opt_text(tokens.access_token) == self@.access_token,
            opt_text(tokens.refresh_token) == self@.refresh_token,
            tokens.expires_at == self@.expires_at,
    {
        AuthTokens {
            access_token: self.access_token(),
            refresh_token: self.refresh_token(),
            expires_at: self.expires_at,
        }
    }

    /// The app token that the manager was made with.
    pub fn app_token(&self) -> (r: AppToken)
        ensures
            r@ == self@.app_token,
    {
        self.app_token.clone()
    }

    /// The client identifier that the manager was made with.
    pub fn client_id(&self) -> (r: ClientId)
        ensures
            r@ == self@.client_id,
    {
        self.client_id.clone()
    }

    /// The client secret that the manager was made with.
    pub fn client_secret(&self) -> (r: ClientSecret)
        ensures
            r@ == self@.client_secret,
    {
        self.client_secret.clone()
    }

    /// The redirect URI that the manager was made with.
    pub fn redirect_url(&self) -> (r: RedirectUrl)
        ensures
            r@ == self@.redirect_url,
    {
        self.redirect_url.clone()
    }

    /// The access token, if there is one.
    pub fn access_token(&self) -> (r: Option<AccessToken>)
        ensures
            opt_text(r) == self@.access_token,
    {
        match &self.access_token {
            Some(t) => Some(t.clone()),
            None => None,
        }
    }

    /// The refresh token, if there is one.
    pub fn refresh_token(&self) -> (r: Option<RefreshToken>)
        ensures
            opt_text(r) == self@.refresh_token,
    {
        match &self.refresh_token {
            Some(t) => Some(t.clone()),
            None => None,
        }
    }

    /// The UTC second at which both tokens expire.
    pub fn expires_at(&self) -> (r: u64)
        ensures
            r == self@.expires_at,
    {
        self.expires_at
    }

    /// The scopes that the next interactive grant will ask for, in the order
    /// in which they were added.
    pub fn scopes(&self) -> (r: Vec<Scope>)
        ensures
            scope_texts(r@) == self@.scopes,
    {
        let mut out: Vec<Scope> = Vec::new();
        let mut i: usize = 0;
        while i < self.scopes.len()
            invariant
                i <= self.scopes.len(),
                out@ == self.scopes@.subrange(0, i as int),
            decreases self.scopes.len() - i,
        {
            out.push(self.scopes[i].clone());
            assert(out@ =~= self.scopes@.subrange(0, i + 1));
            i += 1;
        }
        assert(out@ =~= self.scopes@);
        out
    }

    /// Sets the refresh token by hand, as when a persisted snapshot is
    /// restored. Nothing else changes: keeping the expiry in step with the
    /// token is the caller's business.
    pub fn set_refresh_token_unchecked(&mut self, token: RefreshToken)
        ensures
            final(self)@ == (AuthView { refresh_token: Some(token@), ..old(self)@ }),
    {
        self.refresh_token = Some(token);
    }

    /// Sets the access token by hand, as when a persisted snapshot is
    /// restored. Nothing else changes: keeping the expiry in step with the
    /// token is the caller's business.
    pub fn set_access_token_unchecked(&mut self, token: AccessToken)
        ensures
            final(self)@ == (AuthView { access_token: Some(token@), ..old(self)@ }),
    {
        self.access_token = Some(token);
    }

    /// Sets the expiry by hand.
    pub fn set_expires_at_unchecked(&mut self, expiry: u64)
        ensures
            final(self)@ == (AuthView { expires_at: expiry, ..old(self)@ }),
    {
        self.expires_at = expiry;
    }

    /// Sets the expiry to `seconds` after `now`, where that second is one a
    /// timestamp can hold.
    pub fn set_expires_in_at(&mut self, seconds: u64, now: u64)
        requires
            lifetime_fits(now, seconds),
        ensures
            final(self)@ == old(self)@.expiring_in(seconds, now),
    {
        self.expires_at = now + seconds;
    }

    /// Sets the expiry to `seconds` after the present second, and says whether
    /// it did: it leaves the expiry alone where that second is more than a
    /// timestamp can hold.
    pub fn set_expires_in_unchecked(&mut self, seconds: u64) -> (set: bool)
        ensures
            exists|now: u64|
                (final(self)@, set) == #[trigger] old(self)@.expiring_in_if_fits(seconds, now),
            !set ==> final(self)@ == old(self)@,
            seconds == 0 ==> set,
    {
        let now = now_utc_seconds();
        let ghost before = self@;
        let set = if seconds <= u64::MAX - now {
            self.set_expires_in_at(seconds, now);
            true
        } else {
            false
        };
        assert((self@, set) == before.expiring_in_if_fits(seconds, now));
        set
    }

    /// Adds a scope. It takes effect at the next interactive grant; tokens
    /// that were already issued keep the scopes they were granted with.
    pub fn add_scope(&mut self, scope: Scope)
        ensures
            final(self)@ == (AuthView { scopes: old(self)@.scopes.push(scope@), ..old(self)@ }),
    {
        self.scopes.push(scope);
        assert(scope_texts(self.scopes@) =~= scope_texts(old(self).scopes@).push(scope@));
    }

    /// Records that an authorization callback has been installed, so that
    /// interactive grants may start.
    pub fn set_callback(&mut self)
        ensures
            final(self)@ == (AuthView { callback_set: true, ..old(self)@ }),
    {
        self.callback_set = true;
    }

    /// Whether the access token is usable at `now`: it is present, and `now`
    /// is before the expiry.
    pub fn is_valid_at(&self, now: u64) -> (r: bool)
        ensures
            r == self@.is_valid_at(now),
    {
        self.access_token.is_some() && now < self.expires_at
    }

    /// Whether the refresh token is usable at `now`: it is present, and `now`
    /// is before the expiry, which it shares with the access token.
    pub fn is_refresh_valid_at(&self, now: u64) -> (r: bool)
        ensures
            r == self@.is_refresh_valid_at(now),
    {
        self.refresh_token.is_some() && now < self.expires_at
    }

    /// How the credentials stand at `now`: valid with a usable access token,
    /// stale without one but with a refresh token, and else without
    /// credentials.
    pub fn standing_at(&self, now: u64) -> (r: Standing)
        ensures
            r == self@.standing_at(now),
    {
        if self.is_valid_at(now) {
            Standing::Valid
        } else if self.refresh_token.is_some() {
            Standing::Stale
        } else {
            Standing::NoCreds
        }
    }

    /// Whether the access token is usable at the present second.
    pub fn is_valid(&self) -> (r: bool)
        ensures
            exists|now: u64| r == self@.is_valid_at(now),
            r ==> self@.access_token is Some && self@.expires_at > 0,
    {
        let now = now_utc_seconds();
        let r = self.is_valid_at(now);
        assert(r == self@.is_valid_at(now));
        r
    }

    /// Whether the refresh token is usable at the present second.
    pub fn is_refresh_valid(&self) -> (r: bool)
        ensures
            exists|now: u64| r == self@.is_refresh_valid_at(now),
            r ==> self@.refresh_token is Some && self@.expires_at > 0,
    {
        let now = now_utc_seconds();
        let r = self.is_refresh_valid_at(now);
        assert(r == self@.is_refresh_valid_at(now));
        r
    }
}

} // verus!
