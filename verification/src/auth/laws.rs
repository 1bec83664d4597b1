use crate::auth::model::{
    lifetime_fits, AuthStepView, AuthView, GrantPhaseView, Standing, TokenGrantView,
};
use crate::errors::TokenErrorView;
use vstd::prelude::*;

verus! {

/// What the outside world answers during one operation: the token endpoint to
/// a refresh exchange, the authorization callback, and the token endpoint to
/// a code exchange. An operation asks for no more than one of each.
pub struct Answers {
    pub refresh: Result<TokenGrantView, Seq<char>>,
    pub callback: Result<(Seq<char>, Seq<char>), Seq<char>>,
    pub exchange: Result<TokenGrantView, Seq<char>>,
}

/// Follows an interactive grant from the step that may have started it to the
/// end of the operation, with the answers that come in at `now`.
pub open spec fn finish_grant(started: (AuthView, AuthStepView), answers: Answers, now: u64) -> (
    AuthView,
    AuthStepView,
) {
    match started.1 {
        AuthStepView::Authorize { .. } => {
            let answered = started.0.authorized(answers.callback);
            match answered.1 {
                AuthStepView::Exchange { .. } => {
                    let ended = answered.0.exchanged(answers.exchange, now);
                    (ended.0, AuthStepView::Done(ended.1))
                },
                _ => answered,
            }
        },
        _ => started,
    }
}

/// Follows `try_refresh` from its start at `now` to its end, with the answers
/// that come in at `later`.
pub open spec fn try_refresh_run(
    auth: AuthView,
    now: u64,
    later: u64,
    state: Seq<char>,
    verifier: Seq<char>,
    answers: Answers,
) -> (AuthView, AuthStepView) {
    let started = auth.try_refresh(now, state, verifier);
    match started.1 {
        AuthStepView::Refresh { escalate, .. } => finish_grant(
            started.0.refreshed(escalate, answers.refresh, later, state, verifier),
            answers,
            later,
        ),
        _ => finish_grant(started, answers, later),
    }
}

/// Follows `regenerate` from its start to its end, with the answers that come
/// in at `now`.
pub open spec fn regenerate_run(
    auth: AuthView,
    now: u64,
    state: Seq<char>,
    verifier: Seq<char>,
    answers: Answers,
) -> (AuthView, AuthStepView) {
    finish_grant(auth.open_grant(state, verifier), answers, now)
}

/// Whether `auth` holds the tokens of one of the two grants in `answers`, with
/// the expiry that the grant gives at `now`.
pub open spec fn holds_an_answer(auth: AuthView, answers: Answers, now: u64) -> bool {
    ||| answers.refresh is Ok && auth.holds_grant(answers.refresh->Ok_0, now)
    ||| answers.exchange is Ok && auth.holds_grant(answers.exchange->Ok_0, now)
}

/// Whether every grant in `answers` lasts a second at least.
pub open spec fn positive_lifetimes(answers: Answers) -> bool {
    &&& answers.refresh is Ok ==> answers.refresh->Ok_0.expires_in > 0
    &&& answers.exchange is Ok ==> answers.exchange->Ok_0.expires_in > 0
}

/// Whatever state the credentials are in, `try_refresh` heals them or says
/// why not.
///
/// With no other grant in flight it never asks to wait, and it leaves no
/// grant in flight behind. It begins with the refresh exchange exactly while
/// the refresh token is valid. Where it ends well, the credentials are those
/// of a grant that the token endpoint handed out, and with a lifetime of at
/// least a second the access token is valid. Where it fails, the credentials
/// are what they were, and the manager can be asked again.
pub proof fn law_try_refresh_heals_or_reports(
    auth: AuthView,
    now: u64,
    later: u64,
    state: Seq<char>,
    verifier: Seq<char>,
    answers: Answers,
)
    requires
        auth.grant is Idle,
    ensures
        ({
            let end = try_refresh_run(auth, now, later, state, verifier, answers);
            &&& end.1 is Done
            &&& end.0.grant is Idle
            &&& (auth.try_refresh(now, state, verifier).1 is Refresh <==> auth.is_refresh_valid_at(
                now,
            ))
            &&& end.1 == AuthStepView::Done(Ok(())) ==> holds_an_answer(end.0, answers, later)
            &&& (end.1 == AuthStepView::Done(Ok(())) && positive_lifetimes(answers))
                ==> end.0.is_valid_at(later)
            &&& end.1 != AuthStepView::Done(Ok(())) ==> end.0.same_credentials(auth)
        }),
{
}

/// A refresh that fails while it is to escalate goes on to the interactive
/// grant: with a callback installed, endpoints that parse and no other grant
/// in flight, the authorization URL goes out, and a callback and an exchange
/// that succeed end in valid credentials.
pub proof fn law_failed_refresh_escalates(
    auth: AuthView,
    message: Seq<char>,
    now: u64,
    state: Seq<char>,
    verifier: Seq<char>,
    code: Seq<char>,
    grant: TokenGrantView,
)
    requires
        auth.grant is Idle,
        auth.callback_set,
        auth.endpoints_parse(),
        lifetime_fits(now, grant.expires_in),
        grant.expires_in > 0,
    ensures
        ({
            let escalated = auth.refreshed(true, Err(message), now, state, verifier);
            let answered = escalated.0.authorized(Ok((code, state)));
            let ended = answered.0.exchanged(Ok(grant), now);
            &&& escalated.1 == (AuthStepView::Authorize {
                url: auth.authorize_url(state, verifier),
                state,
            })
            &&& escalated.0.same_credentials(auth)
            &&& answered.1 == (AuthStepView::Exchange { code, verifier })
            &&& ended.1 == Ok::<(), TokenErrorView>(())
            &&& ended.0 == auth.install(grant, now)
            &&& ended.0.is_valid_at(now)
        }),
{
}

/// A callback that comes back with another state than the one that went out
/// ends the attempt with `StateMismatch`, and the manager is what it was
/// before the attempt began.
pub proof fn law_state_mismatch_changes_nothing(
    auth: AuthView,
    state: Seq<char>,
    verifier: Seq<char>,
    code: Seq<char>,
    returned: Seq<char>,
)
    requires
        auth.grant is Idle,
        auth.open_grant(state, verifier).1 is Authorize,
        returned != state,
    ensures
        ({
            let begun = auth.open_grant(state, verifier).0;
            let ended = begun.authorized(Ok((code, returned)));
            &&& ended.1 == AuthStepView::Done(Err(TokenErrorView::StateMismatch))
            &&& ended.0 == auth
        }),
{
}

/// No answer of the callback touches the credentials, whatever state the
/// manager is in.
pub proof fn law_callback_keeps_credentials(
    auth: AuthView,
    answer: Result<(Seq<char>, Seq<char>), Seq<char>>,
)
    ensures
        auth.authorized(answer).0.same_credentials(auth),
        auth.authorized(answer).0.scopes == auth.scopes,
        auth.authorized(answer).0.app_token == auth.app_token,
{
}

/// A token exchange replaces both tokens and the expiry together or not at
/// all: after it they are those of the grant, all three, or those from before,
/// all three.
pub proof fn law_exchange_is_all_or_nothing(
    auth: AuthView,
    escalate: bool,
    answer: Result<TokenGrantView, Seq<char>>,
    now: u64,
    state: Seq<char>,
    verifier: Seq<char>,
)
    ensures
        ({
            let refreshed = auth.refreshed(escalate, answer, now, state, verifier).0;
            let exchanged = auth.exchanged(answer, now).0;
            &&& refreshed.same_credentials(auth) || (answer is Ok && refreshed.holds_grant(
                answer->Ok_0,
                now,
            ))
            &&& exchanged.same_credentials(auth) || (answer is Ok && exchanged.holds_grant(
                answer->Ok_0,
                now,
            ))
            &&& (answer is Ok && lifetime_fits(now, answer->Ok_0.expires_in))
                ==> refreshed.holds_grant(answer->Ok_0, now)
        }),
{
}

/// The access token is not valid before any was set; from the second at which
/// a grant is installed it is valid for the grant's lifetime, and not a
/// second longer.
pub proof fn law_validity_window(
    client_id: Seq<char>,
    client_secret: Seq<char>,
    app_token: Seq<char>,
    redirect_url: Seq<char>,
    auth: AuthView,
    grant: TokenGrantView,
    now: u64,
    at: u64,
)
    requires
        lifetime_fits(now, grant.expires_in),
    ensures
        !AuthView::fresh(client_id, client_secret, app_token, redirect_url).is_valid_at(at),
        !AuthView::fresh(client_id, client_secret, app_token, redirect_url).is_refresh_valid_at(at),
        auth.install(grant, now).is_valid_at(at) <==> at < now + grant.expires_in,
        auth.install(grant, now).is_refresh_valid_at(at) <==> at < now + grant.expires_in,
        grant.expires_in > 0 ==> auth.install(grant, now).is_valid_at(now),
{
}

/// How the credentials move between their standings.
///
/// A new manager is without credentials. A grant that lasts a second at
/// least makes them valid; they stay valid until the expiry and are stale
/// from then on. An operation that does not end well leaves them standing as
/// they stood, so that it can be tried again.
pub proof fn law_standing(
    client_id: Seq<char>,
    client_secret: Seq<char>,
    app_token: Seq<char>,
    redirect_url: Seq<char>,
    auth: AuthView,
    grant: TokenGrantView,
    now: u64,
    at: u64,
    state: Seq<char>,
    verifier: Seq<char>,
    answers: Answers,
)
    requires
        lifetime_fits(now, grant.expires_in),
        grant.expires_in > 0,
        auth.grant is Idle,
    ensures
        AuthView::fresh(client_id, client_secret, app_token, redirect_url).standing_at(at)
            == Standing::NoCreds,
        auth.install(grant, now).standing_at(now) == Standing::Valid,
        now <= at < now + grant.expires_in ==> auth.install(grant, now).standing_at(at)
            == Standing::Valid,
        at >= now + grant.expires_in ==> auth.install(grant, now).standing_at(at)
            == Standing::Stale,
        ({
            let end = try_refresh_run(auth, now, now, state, verifier, answers);
            end.1 != AuthStepView::Done(Ok(())) ==> end.0.standing_at(at) == auth.standing_at(at)
        }),
        ({
            let end = regenerate_run(auth, now, state, verifier, answers);
            &&& end.1 != AuthStepView::Done(Ok(())) ==> end.0.standing_at(at) == auth.standing_at(
                at,
            )
            &&& (end.1 == AuthStepView::Done(Ok(())) && positive_lifetimes(answers))
                ==> end.0.standing_at(now) == Standing::Valid
        }),
{
}

/// Only one interactive grant is in flight at a time: while one is, every
/// operation that would start another asks to wait and changes nothing, and
/// an authorization URL goes out only from a manager with none in flight.
pub proof fn law_one_grant_at_a_time(
    auth: AuthView,
    now: u64,
    state: Seq<char>,
    verifier: Seq<char>,
    message: Seq<char>,
)
    ensures
        !(auth.grant is Idle) ==> auth.open_grant(state, verifier) == (auth, AuthStepView::Wait),
        !(auth.grant is Idle) && !auth.is_refresh_valid_at(now) ==> auth.try_refresh(
            now,
            state,
            verifier,
        ) == (auth, AuthStepView::Wait),
        !(auth.grant is Idle) ==> auth.refreshed(true, Err(message), now, state, verifier) == (
            auth,
            AuthStepView::Wait,
        ),
        auth.open_grant(state, verifier).1 is Authorize ==> auth.grant is Idle && auth.open_grant(
            state,
            verifier,
        ).0.grant == (GrantPhaseView::AwaitingCallback { state, verifier }),
{
}

/// The snapshot of the credentials brings them back: a manager made from it
/// for the same client holds the same tokens and expiry.
pub proof fn law_snapshot_restores(auth: AuthView)
    ensures
        (AuthView {
            access_token: auth.access_token,
            refresh_token: auth.refresh_token,
            expires_at: auth.expires_at,
            ..AuthView::fresh(
                auth.client_id,
                auth.client_secret,
                auth.app_token,
                auth.redirect_url,
            )
        }).same_credentials(auth),
{
}

} // verus!
