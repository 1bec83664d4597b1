use crate::errors::TokenErrorView;
use crate::secrets::{authorize_url_text, url_parses};
use vstd::prelude::*;

verus! {

/// Where the provider's authorization endpoint is.
pub const AUTHORIZE_URL: &'static str = "https://animeschedule.net/api/v3/oauth2/authorize";

/// Where the provider's token endpoint is, for both kinds of exchange.
pub const TOKEN_URL: &'static str = "https://animeschedule.net/api/v3/oauth2/token";

/// Where the provider's revocation endpoint is.
pub const REVOKE_URL: &'static str = "https://animeschedule.net/api/v3/oauth2/revoke";

/// What a grant attempt is told when no authorization callback was installed.
pub const CALLBACK_MISSING: &'static str = "oauth2 callback not implemented";

/// What a refresh is told when the lifetime it was given cannot be added to
/// the clock.
pub const LIFETIME_OUT_OF_RANGE: &'static str = "token lifetime out of range";

/// The text of an optional secret.
pub open spec fn opt_text<T: View<V = Seq<char>>>(o: Option<T>) -> Option<Seq<char>> {
    match o {
        Some(t) => Some(t@),
        None => None,
    }
}

/// Whether a token that is issued at `now` for `expires_in` seconds expires
/// at a second that a timestamp can hold.
pub open spec fn lifetime_fits(now: u64, expires_in: u64) -> bool {
    now + expires_in <= u64::MAX
}

/// How the credentials stand at a second.
#[derive(Debug, Clone, Copy, PartialEq, Eq, Structural)]
pub enum Standing {
    /// Nothing usable is held: only an interactive grant helps.
    NoCreds,
    /// The access token is not usable, but a refresh token is held.
    Stale,
    /// The access token is usable.
    Valid,
}

/// What the token endpoint hands out: both tokens and their joint lifetime.
pub struct TokenGrantView {
    pub access_token: Seq<char>,
    pub refresh_token: Seq<char>,
    pub expires_in: u64,
}

/// How far the one interactive grant that may be in flight has come.
pub enum GrantPhaseView {
    /// No grant is in flight.
    Idle,
    /// The authorization URL is out; the callback has not answered.
    AwaitingCallback { state: Seq<char>, verifier: Seq<char> },
    /// The callback answered with the right state; the code is being exchanged.
    Exchanging,
}

/// A token that the revocation endpoint can be asked to revoke.
pub enum RevocableTokenView {
    AccessToken(Seq<char>),
    RefreshToken(Seq<char>),
}

/// What the caller has to do next on the manager's behalf.
pub enum AuthStepView {
    Refresh { token: Seq<char>, escalate: bool },
    Authorize { url: Seq<char>, state: Seq<char> },
    Exchange { code: Seq<char>, verifier: Seq<char> },
    Revoke { subject: RevocableTokenView },
    Wait,
    Done(Result<(), TokenErrorView>),
}

/// The manager as a value: who the client is, the credential store, and the
/// grant in flight.
pub struct AuthView {
    pub client_id: Seq<char>,
    pub client_secret: Seq<char>,
    pub redirect_url: Seq<char>,
    pub app_token: Seq<char>,
    pub access_token: Option<Seq<char>>,
    pub refresh_token: Option<Seq<char>>,
    pub expires_at: u64,
    pub scopes: Seq<Seq<char>>,
    pub callback_set: bool,
    pub grant: GrantPhaseView,
}

impl AuthView {
    /// The manager right after construction: no tokens, no expiry, no scopes,
    /// no callback, no grant in flight.
    pub open spec fn fresh(
        client_id: Seq<char>,
        client_secret: Seq<char>,
        app_token: Seq<char>,
        redirect_url: Seq<char>,
    ) -> AuthView {
        AuthView {
            client_id,
            client_secret,
            redirect_url,
            app_token,
            access_token: None,
            refresh_token: None,
            expires_at: 0,
            scopes: Seq::empty(),
            callback_set: false,
            grant: GrantPhaseView::Idle,
        }
    }

    /// The access token is present and `now` is before the expiry.
    pub open spec fn is_valid_at(self, now: u64) -> bool {
        self.access_token is Some && now < self.expires_at
    }

    /// The refresh token is present and `now` is before the expiry, which it
    /// shares with the access token.
    pub open spec fn is_refresh_valid_at(self, now: u64) -> bool {
        self.refresh_token is Some && now < self.expires_at
    }

    /// How the credentials stand at `now`.
    pub open spec fn standing_at(self, now: u64) -> Standing {
        if self.is_valid_at(now) {
            Standing::Valid
        } else if self.refresh_token is Some {
            Standing::Stale
        } else {
            Standing::NoCreds
        }
    }

    /// Both tokens and the expiry are those of `other`.
    pub open spec fn same_credentials(self, other: AuthView) -> bool {
        &&& self.access_token == other.access_token
        &&& self.refresh_token == other.refresh_token
        &&& self.expires_at == other.expires_at
    }

    /// Both tokens and the expiry are those that `grant` gives at `now`.
    pub open spec fn holds_grant(self, grant: TokenGrantView, now: u64) -> bool {
        &&& self.access_token == Some(grant.access_token)
        &&& self.refresh_token == Some(grant.refresh_token)
        &&& self.expires_at == now + grant.expires_in
    }

    /// The manager with both tokens and the expiry replaced by what `grant`
    /// gives at `now`, and nothing else changed.
    pub open spec fn install(self, grant: TokenGrantView, now: u64) -> AuthView {
        AuthView {
            access_token: Some(grant.access_token),
            refresh_token: Some(grant.refresh_token),
            expires_at: (now + grant.expires_in) as u64,
            ..self
        }
    }

    /// The manager with the expiry set to `seconds` after `now`, and nothing
    /// else changed.
    pub open spec fn expiring_in(self, seconds: u64, now: u64) -> AuthView {
        AuthView { expires_at: (now + seconds) as u64, ..self }
    }

    /// The manager with the expiry set to `seconds` after `now` where that
    /// second is one a timestamp can hold, and the manager as it is where it
    /// is not; and which of the two it is.
    pub open spec fn expiring_in_if_fits(self, seconds: u64, now: u64) -> (AuthView, bool) {
        if lifetime_fits(now, seconds) {
            (self.expiring_in(seconds, now), true)
        } else {
            (self, false)
        }
    }

    /// The manager with no grant in flight, and nothing else changed.
    pub open spec fn idle(self) -> AuthView {
        AuthView { grant: GrantPhaseView::Idle, ..self }
    }

    /// The authorization URL of an attempt with `state` and `verifier`.
    pub open spec fn authorize_url(self, state: Seq<char>, verifier: Seq<char>) -> Seq<char> {
        authorize_url_text(
            AUTHORIZE_URL@,
            self.client_id,
            self.redirect_url,
            self.scopes,
            verifier,
            state,
        )
    }

    /// Whether the authorization URL can be built at all.
    pub open spec fn endpoints_parse(self) -> bool {
        url_parses(AUTHORIZE_URL@) && url_parses(self.redirect_url)
    }

    /// Starts an interactive grant with a fresh `state` and `verifier`.
    ///
    /// While another grant is in flight the caller has to wait, and nothing
    /// changes. Without a callback, or without endpoints that parse, the
    /// attempt ends at once. Otherwise the attempt is recorded and the URL
    /// goes out.
    pub open spec fn open_grant(self, state: Seq<char>, verifier: Seq<char>) -> (
        AuthView,
        AuthStepView,
    ) {
        if !(self.grant is Idle) {
            (self, AuthStepView::Wait)
        } else if !self.callback_set {
            (self, AuthStepView::Done(Err(TokenErrorView::Callback(CALLBACK_MISSING@))))
        } else if !self.endpoints_parse() {
            (self, AuthStepView::Done(Err(TokenErrorView::Parse)))
        } else {
            (
                AuthView { grant: GrantPhaseView::AwaitingCallback { state, verifier }, ..self },
                AuthStepView::Authorize { url: self.authorize_url(state, verifier), state },
            )
        }
    }

    /// Takes the callback's answer: the code and the state it saw, or its
    /// failure.
    ///
    /// Only an answer that carries the state of the attempt in flight leads
    /// to the exchange. Every other answer ends the attempt, and none touches
    /// the credentials.
    pub open spec fn authorized(self, answer: Result<(Seq<char>, Seq<char>), Seq<char>>) -> (
        AuthView,
        AuthStepView,
    ) {
        match self.grant {
            GrantPhaseView::AwaitingCallback { state, verifier } => match answer {
                Ok((code, returned)) => if returned == state {
                    (
                        AuthView { grant: GrantPhaseView::Exchanging, ..self },
                        AuthStepView::Exchange { code, verifier },
                    )
                } else {
                    (self.idle(), AuthStepView::Done(Err(TokenErrorView::StateMismatch)))
                },
                Err(message) => (
                    self.idle(),
                    AuthStepView::Done(Err(TokenErrorView::Callback(message))),
                ),
            },
            _ => (self, AuthStepView::Done(Err(TokenErrorView::StateMismatch))),
        }
    }

    /// Takes the token endpoint's answer to the code exchange at `now`, which
    /// ends the attempt either way.
    pub open spec fn exchanged(self, answer: Result<TokenGrantView, Seq<char>>, now: u64) -> (
        AuthView,
        Result<(), TokenErrorView>,
    ) {
        match self.grant {
            GrantPhaseView::Exchanging => match answer {
                Ok(grant) => if lifetime_fits(now, grant.expires_in) {
                    (self.idle().install(grant, now), Ok(()))
                } else {
                    (self.idle(), Err(TokenErrorView::Access))
                },
                Err(_) => (self.idle(), Err(TokenErrorView::Access)),
            },
            _ => (self, Err(TokenErrorView::Access)),
        }
    }

    /// Gives up the grant in flight, if there is one.
    pub open spec fn abandoned(self) -> AuthView {
        self.idle()
    }

    /// Starts a refresh that ends with the exchange, whatever comes of it.
    pub open spec fn refresh(self) -> AuthStepView {
        match self.refresh_token {
            Some(token) => AuthStepView::Refresh { token, escalate: false },
            None => AuthStepView::Done(Err(TokenErrorView::Refresh)),
        }
    }

    /// What a failed refresh exchange says, if it says anything.
    pub open spec fn refresh_failure(answer: Result<TokenGrantView, Seq<char>>, now: u64) -> Option<
        Seq<char>,
    > {
        match answer {
            Ok(grant) => if lifetime_fits(now, grant.expires_in) {
                None
            } else {
                Some(LIFETIME_OUT_OF_RANGE@)
            },
            Err(message) => Some(message),
        }
    }

    /// Takes the token endpoint's answer to a refresh exchange at `now`.
    ///
    /// A grant replaces both tokens and the expiry together. A failure leaves
    /// them alone, and either is reported or, where the refresh was to
    /// `escalate`, starts an interactive grant with `state` and `verifier`.
    pub open spec fn refreshed(
        self,
        escalate: bool,
        answer: Result<TokenGrantView, Seq<char>>,
        now: u64,
        state: Seq<char>,
        verifier: Seq<char>,
    ) -> (AuthView, AuthStepView) {
        match Self::refresh_failure(answer, now) {
            None => (self.install(answer->Ok_0, now), AuthStepView::Done(Ok(()))),
            Some(message) => if escalate {
                self.open_grant(state, verifier)
            } else {
                (self, AuthStepView::Done(Err(TokenErrorView::OAuth2(message))))
            },
        }
    }

    /// Starts whatever brings back usable tokens at `now`: a refresh that
    /// escalates while the refresh token is valid, an interactive grant with
    /// `state` and `verifier` once it is not.
    pub open spec fn try_refresh(self, now: u64, state: Seq<char>, verifier: Seq<char>) -> (
        AuthView,
        AuthStepView,
    ) {
        if self.is_refresh_valid_at(now) {
            (self, AuthStepView::Refresh { token: self.refresh_token->Some_0, escalate: true })
        } else {
            self.open_grant(state, verifier)
        }
    }

    /// Starts the revocation of the access token; there is nothing to do
    /// where there is none.
    pub open spec fn revoke_token(self) -> AuthStepView {
        match self.access_token {
            Some(token) => AuthStepView::Revoke { subject: RevocableTokenView::AccessToken(token) },
            None => AuthStepView::Done(Ok(())),
        }
    }

    /// Starts the revocation of the refresh token; there is nothing to do
    /// where there is none.
    pub open spec fn revoke_refresh_token(self) -> AuthStepView {
        match self.refresh_token {
            Some(token) => AuthStepView::Revoke { subject: RevocableTokenView::RefreshToken(token) },
            None => AuthStepView::Done(Ok(())),
        }
    }
}

/// What a revocation call comes to.
pub open spec fn revoked(answer: Result<(), Seq<char>>) -> Result<(), TokenErrorView> {
    match answer {
        Ok(()) => Ok(()),
        Err(message) => Err(TokenErrorView::Revoke(message)),
    }
}

} // verus!
