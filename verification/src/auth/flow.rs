use crate::auth::model::{
    lifetime_fits, revoked, AuthView, AUTHORIZE_URL, CALLBACK_MISSING, LIFETIME_OUT_OF_RANGE,
};
use crate::auth::{
    callback_view, exchange_view, Auth, AuthStep, GrantPhase, RevocableToken, TokenGrant,
};
use crate::clock::now_utc_seconds;
use crate::errors::{outcome_view, TokenError};
use crate::secrets::{authorize_url, AuthorizationCode, CsrfToken, PkceCodeVerifier};
use vstd::prelude::*;

verus! {

impl Auth {
    /// Replaces both tokens and the expiry, together, by what `grant` gives at
    /// `now`.
    fn install(&mut self, grant: TokenGrant, now: u64)
        requires
            lifetime_fits(now, grant.expires_in),
        ensures
            final(self)@ == old(self)@.install(grant@, now),
    {
        self.expires_at = now + grant.expires_in;
        self.access_token = Some(grant.access_token);
        self.refresh_token = Some(grant.refresh_token);
    }

    /// Starts an interactive grant with the given `state` and `verifier`.
    ///
    /// While another grant is in flight the step is `Wait` and nothing
    /// changes. Without a callback, or without endpoints that parse as URLs,
    /// the attempt ends at once. Otherwise the attempt is recorded, and the
    /// step carries the authorization URL and the state for the callback.
    pub fn open_grant(&mut self, state: CsrfToken, verifier: PkceCodeVerifier) -> (step: AuthStep)
        ensures
            (final(self)@, step@) == old(self)@.open_grant(state@, verifier@),
    {
        match self.grant {
            GrantPhase::Idle => {},
            _ => {
                return AuthStep::Wait;
            },
        }
        if !self.callback_set {
            return AuthStep::Done(Err(TokenError::Callback(CALLBACK_MISSING.to_owned())));
        }
        let _ = verifier.secret();
        let built = authorize_url(
            AUTHORIZE_URL,
            &self.client_id,
            &self.redirect_url,
            &self.scopes,
            &verifier,
            &state,
        );
        match built {
            Ok(url) => {
                let issued = state.clone();
                self.grant = GrantPhase::AwaitingCallback { state, verifier };
                AuthStep::Authorize { url, state: issued }
            },
            Err(e) => AuthStep::Done(Err(TokenError::Parse(e))),
        }
    }

    /// Starts an interactive grant with a fresh state and a fresh verifier.
    pub fn regenerate(&mut self) -> (step: AuthStep)
        ensures
            exists|state: Seq<char>, verifier: Seq<char>|
                (final(self)@, step@) == #[trigger] old(self)@.open_grant(state, verifier),
            !(step@ is Authorize) ==> final(self)@ == old(self)@,
            !(old(self)@.grant is Idle) ==> step@ is Wait,
    {
        let state = CsrfToken::new_random();
        let verifier = PkceCodeVerifier::new_random();
        let ghost before = self@;
        let step = self.open_grant(state, verifier);
        assert((self@, step@) == before.open_grant(state@, verifier@));
        step
    }

    /// Takes the callback's answer: the code and the state it saw, or what
    /// its failure said.
    ///
    /// Only an answer that carries the state of the attempt in flight leads
    /// to the exchange. Every other answer ends the attempt with
    /// `StateMismatch` or `Callback`, and none touches the credentials.
    pub fn authorized(&mut self, answer: Result<(AuthorizationCode, CsrfToken), String>) -> (step:
        AuthStep)
        ensures
            (final(self)@, step@) == old(self)@.authorized(callback_view(answer)),
    {
        let mut phase = GrantPhase::Idle;
        std::mem::swap(&mut self.grant, &mut phase);
        match phase {
            GrantPhase::AwaitingCallback { state, verifier } => match answer {
                Ok((code, returned)) => {
                    if returned.matches(&state) {
                        self.grant = GrantPhase::Exchanging;
                        AuthStep::Exchange { code, verifier }
                    } else {
                        AuthStep::Done(Err(TokenError::StateMismatch))
                    }
                },
                Err(message) => AuthStep::Done(Err(TokenError::Callback(message))),
            },
            other => {
                self.grant = other;
                AuthStep::Done(Err(TokenError::StateMismatch))
            },
        }
    }

    /// Takes the token endpoint's answer to the code exchange at `now`, which
    /// ends the attempt either way.
    ///
    /// A grant replaces both tokens and the expiry together. A failure, an
    /// answer that no exchange in flight was waiting for, and a lifetime that
    /// cannot be added to `now` are all `Access`, and leave the credentials
    /// alone.
    pub fn exchanged_at(&mut self, answer: Result<TokenGrant, String>, now: u64) -> (r: Result<
        (),
        TokenError,
    >)
        ensures
            (final(self)@, outcome_view(r)) == old(self)@.exchanged(exchange_view(answer), now),
    {
        match self.grant {
            GrantPhase::Exchanging => {},
            _ => {
                return Err(TokenError::Access);
            },
        }
        self.grant = GrantPhase::Idle;
        match answer {
            Ok(grant) => {
                if grant.expires_in <= u64::MAX - now {
                    self.install(grant, now);
                    Ok(())
                } else {
                    Err(TokenError::Access)
                }
            },
            Err(_) => Err(TokenError::Access),
        }
    }

    /// Takes the token endpoint's answer to the code exchange at the present
    /// second.
    pub fn exchanged(&mut self, answer: Result<TokenGrant, String>) -> (r: Result<(), TokenError>)
        ensures
            exists|now: u64|
                (final(self)@, outcome_view(r)) == #[trigger] old(self)@.exchanged(
                    exchange_view(answer),
                    now,
                ),
            r is Err ==> final(self)@.same_credentials(old(self)@),
            r is Err ==> r matches Err(TokenError::Access),
    {
        let now = now_utc_seconds();
        let ghost before = self@;
        let r = self.exchanged_at(answer, now);
        assert((self@, outcome_view(r)) == before.exchanged(exchange_view(answer), now));
        r
    }

    /// Gives up the interactive grant in flight, if there is one, so that
    /// another may start. The credentials stay as they are.
    pub fn abandon_grant(&mut self)
        ensures
            final(self)@ == old(self)@.abandoned(),
    {
        self.grant = GrantPhase::Idle;
    }

    /// Starts a refresh: the step carries the refresh token to exchange, or
    /// ends with `Refresh` where there is none.
    pub fn refresh(&self) -> (step: AuthStep)
        ensures
            step@ == self@.refresh(),
    {
        match &self.refresh_token {
            Some(token) => AuthStep::Refresh { token: token.clone(), escalate: false },
            None => AuthStep::Done(Err(TokenError::Refresh)),
        }
    }

    /// Takes the token endpoint's answer to a refresh exchange at `now`.
    ///
    /// A grant replaces both tokens and the expiry together. A failure, and a
    /// lifetime that cannot be added to `now`, leave them alone: it is
    /// reported as `OAuth2` with the provider's text, or, where the refresh
    /// was to `escalate`, it starts an interactive grant with `state` and
    /// `verifier`.
    pub fn refreshed_with(
        &mut self,
        escalate: bool,
        answer: Result<TokenGrant, String>,
        now: u64,
        state: CsrfToken,
        verifier: PkceCodeVerifier,
    ) -> (step: AuthStep)
        ensures
            (final(self)@, step@) == old(self)@.refreshed(
                escalate,
                exchange_view(answer),
                now,
                state@,
                verifier@,
            ),
    {
        let message = match answer {
            Ok(grant) => {
                if grant.expires_in <= u64::MAX - now {
                    self.install(grant, now);
                    return AuthStep::Done(Ok(()));
                }
                LIFETIME_OUT_OF_RANGE.to_owned()
            },
            Err(message) => message,
        };
        if escalate {
            self.open_grant(state, verifier)
        } else {
            AuthStep::Done(Err(TokenError::OAuth2(message)))
        }
    }

    /// Takes the token endpoint's answer to a refresh exchange at the present
    /// second; an interactive grant that it starts gets a fresh state and a
    /// fresh verifier.
    pub fn refreshed(&mut self, escalate: bool, answer: Result<TokenGrant, String>) -> (step:
        AuthStep)
        ensures
            exists|now: u64, state: Seq<char>, verifier: Seq<char>|
                (final(self)@, step@) == #[trigger] old(self)@.refreshed(
                    escalate,
                    exchange_view(answer),
                    now,
                    state,
                    verifier,
                ),
            answer is Err && !escalate ==> final(self)@ == old(self)@ && step@
                == crate::auth::model::AuthStepView::Done(
                Err(crate::errors::TokenErrorView::OAuth2(answer->Err_0@)),
            ),
    {
        let now = now_utc_seconds();
        let state = CsrfToken::new_random();
        let verifier = PkceCodeVerifier::new_random();
        let ghost before = self@;
        let step = self.refreshed_with(escalate, answer, now, state, verifier);
        assert((self@, step@) == before.refreshed(
            escalate,
            exchange_view(answer),
            now,
            state@,
            verifier@,
        ));
        step
    }

    /// Starts whatever brings back usable tokens at `now`: a refresh that
    /// escalates while the refresh token is valid, an interactive grant with
    /// `state` and `verifier` once it is not.
    pub fn try_refresh_at(&mut self, now: u64, state: CsrfToken, verifier: PkceCodeVerifier) -> (step:
        AuthStep)
        ensures
            (final(self)@, step@) == old(self)@.try_refresh(now, state@, verifier@),
    {
        match &self.refresh_token {
            Some(token) if now < self.expires_at => AuthStep::Refresh {
                token: token.clone(),
                escalate: true,
            },
            _ => self.open_grant(state, verifier),
        }
    }

    /// Starts whatever brings back usable tokens at the present second.
    pub fn try_refresh(&mut self) -> (step: AuthStep)
        ensures
            exists|now: u64, state: Seq<char>, verifier: Seq<char>|
                (final(self)@, step@) == #[trigger] old(self)@.try_refresh(now, state, verifier),
            step@ is Refresh || step@ is Authorize || step@ is Wait || step@ is Done,
            old(self)@.refresh_token is None ==> !(step@ is Refresh),
    {
        let now = now_utc_seconds();
        let state = CsrfToken::new_random();
        let verifier = PkceCodeVerifier::new_random();
        let ghost before = self@;
        let step = self.try_refresh_at(now, state, verifier);
        assert((self@, step@) == before.try_refresh(now, state@, verifier@));
        step
    }

    /// Starts the revocation of the access token; where there is none, there
    /// is nothing to do and the operation has ended well.
    pub fn revoke_token(&self) -> (step: AuthStep)
        ensures
            step@ == self@.revoke_token(),
    {
        match &self.access_token {
            Some(token) => AuthStep::Revoke { subject: RevocableToken::AccessToken(token.clone()) },
            None => AuthStep::Done(Ok(())),
        }
    }

    /// Starts the revocation of the refresh token; where there is none, there
    /// is nothing to do and the operation has ended well.
    pub fn revoke_refresh_token(&self) -> (step: AuthStep)
        ensures
            step@ == self@.revoke_refresh_token(),
    {
        match &self.refresh_token {
            Some(token) => AuthStep::Revoke {
                subject: RevocableToken::RefreshToken(token.clone()),
            },
            None => AuthStep::Done(Ok(())),
        }
    }

    /// What a revocation call comes to: a failure is `Revoke`, with what the
    /// transport or the provider said.
    pub fn revoked(answer: Result<(), String>) -> (r: Result<(), TokenError>)
        ensures
            outcome_view(r) == revoked(
                match answer {
                    Ok(()) => Ok(()),
                    Err(message) => Err(message@),
                },
            ),
    {
        match answer {
            Ok(()) => Ok(()),
            Err(message) => Err(TokenError::Revoke(message)),
        }
    }
}

} // verus!
