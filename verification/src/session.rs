//! The life of a session: created at login, valid for thirty days, gone
//! once it has expired or been revoked.
//!
//! A session is `Active` until it is `Expired` or `Revoked`; both are final,
//! and nothing renews a session. Each operation is a state machine: its step
//! function takes the state and the store's answer to the last query, and
//! gives the next state with the next query, if there is one.

use crate::crypto::{generate_token, is_token};
use crate::db::{Answer, CreateSession, Query, Session};
use crate::error::Rejection;
use crate::store::{answers, carried_out, Store};
use vstd::prelude::*;

verus! {

/// The name of the cookie that carries the token of a session. A request
/// without it has no session, which is no error.
pub const COOKIE: &'static str = "session";

/// A session older than this many whole days has expired.
pub const TTL_DAYS: i64 = 30;

/// Milliseconds in a day.
pub const MILLIS_PER_DAY: i64 = 86_400_000;

/// Trusted: `chrono::Utc::now` and `DateTime::timestamp_millis`. The time
/// that the system clock shows, in milliseconds since the Unix epoch;
/// nothing is claimed of it. The call does not return if the clock shows a
/// time before the epoch.
#[verifier::external_body]
pub(crate) fn utc_now_millis() -> i64 {
    chrono::Utc::now().timestamp_millis()
}

/// Whole days from `created` to `now`, both in milliseconds; a started day
/// does not count.
pub open spec fn age_days(created: int, now: int) -> int {
    let elapsed = now - created;
    if elapsed >= 0 {
        elapsed / (MILLIS_PER_DAY as int)
    } else {
        -((-elapsed) / (MILLIS_PER_DAY as int))
    }
}

/// A session has expired when its age exceeds the time to live.
pub open spec fn expired(created: int, now: int) -> bool {
    age_days(created, now) > TTL_DAYS
}

/// The age of a session created at `created`, in whole days.
pub fn age_in_days(created: i64, now: i64) -> (age: i64)
    ensures
        age == age_days(created as int, now as int),
{
    let elapsed: i128 = now as i128 - created as i128;
    let day: i128 = MILLIS_PER_DAY as i128;
    if elapsed >= 0 {
        (elapsed / day) as i64
    } else {
        let back: i128 = -elapsed;
        let days: i128 = back / day;
        (-days) as i64
    }
}

/// Whether the session has outlived the time to live at `now`.
pub fn is_expired(session: &Session, now: i64) -> (gone: bool)
    ensures
        gone == expired(session@.created, now as int),
{
    age_in_days(session.created, now) > TTL_DAYS
}

/// What the check of a session came to.
#[derive(Clone, Debug, PartialEq, Eq)]
pub enum Verdict {
    /// The token names a stored session that has not expired.
    Valid(Session),
    /// No token, no such session, or an expired one.
    Invalid,
    /// The store could not be read.
    StoreError,
}

/// The states of a session check.
#[derive(Debug, PartialEq, Eq)]
pub enum Verify {
    /// Nothing was asked yet. `cookie` is the token that the request
    /// carried, if it carried one.
    Start { cookie: Option<String> },
    /// The session was asked for.
    Fetching,
    /// The session had expired, and its removal was asked for.
    Expiring,
    /// The check is over.
    Done(Verdict),
}

/// One step of the session check.
///
/// Without a token the session is invalid and the store is not asked. A
/// token is looked up. A session that was found is valid unless it has
/// expired; an expired one is removed and invalid, whatever the store says
/// of the removal. No such session is invalid; any other answer is an error
/// of the store.
pub open spec fn verify_step(state: Verify, answer: Option<Answer>, now: i64) -> (
    Verify,
    Option<Query>,
) {
    match state {
        Verify::Start { cookie: None } => (Verify::Done(Verdict::Invalid), None),
        Verify::Start { cookie: Some(token) } => (
            Verify::Fetching,
            Some(Query::GetSession { id: token }),
        ),
        Verify::Fetching => match answer {
            Some(Answer::Session(Some(session))) => if expired(session@.created, now as int) {
                (Verify::Expiring, Some(Query::RemoveSession { id: session.id }))
            } else {
                (Verify::Done(Verdict::Valid(session)), None)
            },
            Some(Answer::Session(None)) => (Verify::Done(Verdict::Invalid), None),
            _ => (Verify::Done(Verdict::StoreError), None),
        },
        Verify::Expiring => (Verify::Done(Verdict::Invalid), None),
        Verify::Done(verdict) => (Verify::Done(verdict), None),
    }
}

/// Advances a session check by one step, with `now` as the time; see
/// [`verify_step`].
pub fn verify_at(state: Verify, answer: Option<Answer>, now: i64) -> (next: (
    Verify,
    Option<Query>,
))
    ensures
        next == verify_step(state, answer, now),
{
    match state {
        Verify::Start { cookie } => match cookie {
            None => (Verify::Done(Verdict::Invalid), None),
            Some(token) => (Verify::Fetching, Some(Query::GetSession { id: token })),
        },
        Verify::Fetching => match answer {
            Some(Answer::Session(Some(session))) => {
                if is_expired(&session, now) {
                    (Verify::Expiring, Some(Query::RemoveSession { id: session.id }))
                } else {
                    (Verify::Done(Verdict::Valid(session)), None)
                }
            },
            Some(Answer::Session(None)) => (Verify::Done(Verdict::Invalid), None),
            _ => (Verify::Done(Verdict::StoreError), None),
        },
        Verify::Expiring => (Verify::Done(Verdict::Invalid), None),
        Verify::Done(verdict) => (Verify::Done(verdict), None),
    }
}

/// Advances a session check by one step, at the time the clock shows.
/// Whatever the time is, the step is that of [`verify_step`] at that time.
pub fn verify(state: Verify, answer: Option<Answer>) -> (next: (Verify, Option<Query>))
    ensures
        exists|now: i64| next == #[trigger] verify_step(state, answer, now),
{
    let now = utc_now_millis();
    verify_at(state, answer, now)
}

/// The states of the creation of a session.
#[derive(Debug, PartialEq, Eq)]
pub enum Create {
    /// Nothing was asked yet.
    Start { user: String },
    /// The store was asked to keep the session under `token`.
    Storing { token: String },
    /// Over: the token of the new session, or why there is none.
    Done(Result<String, Rejection>),
}

/// One step of the creation of a session for `user`, with `token` as the
/// token to use.
///
/// The session is stored under the token with `now` as its time of
/// creation. Unless the store answers with the stored session, the creation
/// has failed: a token that is taken is not tried again here.
pub open spec fn create_step(state: Create, answer: Option<Answer>, now: i64, token: String) -> (
    Create,
    Option<Query>,
) {
    match state {
        Create::Start { user } => (
            Create::Storing { token },
            Some(Query::CreateSession { id: token, session: CreateSession { user, created: now } }),
        ),
        Create::Storing { token: stored } => match answer {
            Some(Answer::Session(Some(_))) => (Create::Done(Ok(stored)), None),
            _ => (Create::Done(Err(Rejection::StoreError)), None),
        },
        Create::Done(outcome) => (Create::Done(outcome), None),
    }
}

/// Advances the creation of a session by one step, with the token given;
/// see [`create_step`].
pub fn create_with_token(state: Create, answer: Option<Answer>, now: i64, token: String) -> (next: (
    Create,
    Option<Query>,
))
    ensures
        next == create_step(state, answer, now, token),
{
    match state {
        Create::Start { user } => {
            let id = token.clone();
            (
                Create::Storing { token },
                Some(Query::CreateSession { id, session: CreateSession { user, created: now } }),
            )
        },
        Create::Storing { token: stored } => match answer {
            Some(Answer::Session(Some(_))) => (Create::Done(Ok(stored)), None),
            _ => (Create::Done(Err(Rejection::StoreError)), None),
        },
        Create::Done(outcome) => (Create::Done(outcome), None),
    }
}

/// Advances the creation of a session by one step, with `now` as the time.
/// The first step draws a fresh token; whichever token came, the step is
/// that of [`create_step`] with it, and a session is only ever stored under
/// a fresh token.
pub fn create_at(state: Create, answer: Option<Answer>, now: i64) -> (next: (
    Create,
    Option<Query>,
))
    ensures
        exists|token: String| next == #[trigger] create_step(state, answer, now, token),
        next.1 matches Some(Query::CreateSession { id, .. }) ==> is_token(id@),
{
    match state {
        Create::Start { user } => {
            let token = generate_token();
            let next = create_with_token(Create::Start { user }, answer, now, token);
            assert(next == create_step(state, answer, now, token));
            next
        },
        other => {
            let token = String::new();
            let next = create_with_token(other, answer, now, token);
            assert(next == create_step(state, answer, now, token));
            next
        },
    }
}

/// Advances the creation of a session by one step, at the time the clock
/// shows and with a fresh token. Whatever the time and the token are, the
/// step is that of [`create_step`] with them.
pub fn create(state: Create, answer: Option<Answer>) -> (next: (Create, Option<Query>))
    ensures
        exists|now: i64, token: String| next == #[trigger] create_step(state, answer, now, token),
        next.1 matches Some(Query::CreateSession { id, .. }) ==> is_token(id@),
{
    let now = utc_now_millis();
    create_at(state, answer, now)
}

/// The states of the revocation of a session.
#[derive(Debug, PartialEq, Eq)]
pub enum Revoke {
    /// Nothing was asked yet.
    Start { token: String },
    /// The removal was asked for.
    Removing,
    /// Over.
    Done(Result<(), Rejection>),
}

/// One step of the revocation of a session.
///
/// The session is removed. That there was none to remove is no error; that
/// the store failed is one.
pub open spec fn revoke_step(state: Revoke, answer: Option<Answer>) -> (Revoke, Option<Query>) {
    match state {
        Revoke::Start { token } => (Revoke::Removing, Some(Query::RemoveSession { id: token })),
        Revoke::Removing => match answer {
            Some(Answer::Session(_)) => (Revoke::Done(Ok(())), None),
            _ => (Revoke::Done(Err(Rejection::StoreError)), None),
        },
        Revoke::Done(outcome) => (Revoke::Done(outcome), None),
    }
}

/// Advances the revocation of a session by one step; see [`revoke_step`].
pub fn revoke(state: Revoke, answer: Option<Answer>) -> (next: (Revoke, Option<Query>))
    ensures
        next == revoke_step(state, answer),
{
    match state {
        Revoke::Start { token } => (Revoke::Removing, Some(Query::RemoveSession { id: token })),
        Revoke::Removing => match answer {
            Some(Answer::Session(_)) => (Revoke::Done(Ok(())), None),
            _ => (Revoke::Done(Err(Rejection::StoreError)), None),
        },
        Revoke::Done(outcome) => (Revoke::Done(outcome), None),
    }
}

/// The threshold is strict and counts whole days: a session expires when
/// thirty-one days have gone by since its creation, and not before. At
/// thirty days to the millisecond it still stands.
pub proof fn law_expiry_threshold(created: int, now: int)
    ensures
        expired(created, now) <==> now - created >= (TTL_DAYS + 1) * MILLIS_PER_DAY,
        now - created == TTL_DAYS * MILLIS_PER_DAY ==> !expired(created, now),
        now - created == (TTL_DAYS + 1) * MILLIS_PER_DAY ==> expired(created, now),
        now <= created ==> !expired(created, now),
{
}

/// Once expired, always expired: time does not bring a session back.
pub proof fn law_expiry_is_final(created: int, now: int, later: int)
    requires
        expired(created, now),
        now <= later,
    ensures
        expired(created, later),
{
    law_expiry_threshold(created, now);
    law_expiry_threshold(created, later);
}

/// A check without a token is invalid at once, and the store is not asked.
pub proof fn law_no_token_no_session(now: i64)
    ensures
        verify_step(Verify::Start { cookie: None }, None, now) == (
            Verify::Done(Verdict::Invalid),
            None::<Query>,
        ),
{
}

/// A check says `Valid` only of a session that the store holds under the
/// token and that has not expired; it then leaves the store as it was.
pub proof fn law_valid_means_stored(
    before: Store,
    token: String,
    now: i64,
    fetched: Answer,
    after: Store,
    session: Session,
)
    requires
        verify_step(Verify::Start { cookie: Some(token) }, None, now).1 matches Some(lookup)
            && answers(before, lookup, fetched, after),
        verify_step(Verify::Fetching, Some(fetched), now).0 == Verify::Done(
            Verdict::Valid(session),
        ),
    ensures
        before.sessions.contains_key(token@),
        before.sessions[token@] == session@,
        !expired(session@.created, now as int),
        after == before,
{
}

/// A stored session that has not expired is valid: if the store answers the
/// lookup, the check ends with that session, and the store is as it was.
pub proof fn law_unexpired_session_is_valid(
    before: Store,
    token: String,
    now: i64,
    fetched: Answer,
    after: Store,
)
    requires
        before.sessions.contains_key(token@),
        !expired(before.sessions[token@].created, now as int),
        verify_step(Verify::Start { cookie: Some(token) }, None, now).1 matches Some(lookup)
            && carried_out(before, lookup, fetched, after),
    ensures
        verify_step(Verify::Fetching, Some(fetched), now).0 matches Verify::Done(
            Verdict::Valid(session),
        ) && session@ == before.sessions[token@],
        verify_step(Verify::Fetching, Some(fetched), now).1 is None,
        after == before,
{
}

/// A session that was created is valid at once, and for as long as it has
/// not expired, and it is the session of the user it was created for.
pub proof fn law_created_session_is_valid(
    before: Store,
    user: String,
    token: String,
    now: i64,
    stored: Answer,
    between: Store,
    later: i64,
    fetched: Answer,
    after: Store,
)
    requires
        create_step(Create::Start { user }, None, now, token).1 matches Some(creation) && answers(
            before,
            creation,
            stored,
            between,
        ),
        create_step(Create::Storing { token }, Some(stored), now, token).0 == Create::Done(
            Ok(token),
        ),
        !expired(now as int, later as int),
        verify_step(Verify::Start { cookie: Some(token) }, None, later).1 matches Some(lookup)
            && carried_out(between, lookup, fetched, after),
    ensures
        verify_step(Verify::Fetching, Some(fetched), later).0 matches Verify::Done(
            Verdict::Valid(session),
        ) && session@.id == token@ && session@.user == user@ && session@.created == now,
        after == between,
{
}

/// An expired session is invalid and does not outlive its check: if the
/// store answers the lookup, the check asks for the removal, and ends with
/// `Invalid` whatever becomes of that; if the store carries the removal out,
/// no session is left under the token.
pub proof fn law_expired_session_is_removed(
    before: Store,
    token: String,
    now: i64,
    fetched: Answer,
    between: Store,
    removed: Answer,
    after: Store,
)
    requires
        before.well_formed(),
        before.sessions.contains_key(token@),
        expired(before.sessions[token@].created, now as int),
        verify_step(Verify::Start { cookie: Some(token) }, None, now).1 matches Some(lookup)
            && carried_out(before, lookup, fetched, between),
        verify_step(Verify::Fetching, Some(fetched), now).1 matches Some(removal) ==> answers(
            between,
            removal,
            removed,
            after,
        ),
    ensures
        verify_step(Verify::Fetching, Some(fetched), now).0 == Verify::Expiring,
        verify_step(Verify::Fetching, Some(fetched), now).1 matches Some(
            Query::RemoveSession { id },
        ) && id@ == token@,
        verify_step(Verify::Expiring, Some(removed), now) == (
            Verify::Done(Verdict::Invalid),
            None::<Query>,
        ),
        removed !is Failed ==> !after.sessions.contains_key(token@),
{
}

/// A revoked session is gone, and revoking is idempotent: if the store
/// carries the removal out, the revocation succeeds whether or not there was
/// a session, and none is left under the token.
pub proof fn law_revoked_session_is_gone(
    before: Store,
    token: String,
    removed: Answer,
    after: Store,
)
    requires
        revoke_step(Revoke::Start { token }, None).1 matches Some(removal) && carried_out(
            before,
            removal,
            removed,
            after,
        ),
    ensures
        revoke_step(Revoke::Removing, Some(removed)) == (Revoke::Done(Ok(())), None::<Query>),
        !after.sessions.contains_key(token@),
{
}

/// How many steps a session check is from its end, at most.
pub open spec fn verify_steps_left(state: Verify) -> nat {
    match state {
        Verify::Start { .. } => 3,
        Verify::Fetching => 2,
        Verify::Expiring => 1,
        Verify::Done(_) => 0,
    }
}

/// A session check comes to an end: every step brings it closer, it asks
/// nothing of the store exactly when it is over, and then it stays as it is.
pub proof fn law_verify_ends(state: Verify, answer: Option<Answer>, now: i64)
    ensures
        verify_step(state, answer, now).1 is None <==> verify_step(state, answer, now).0 is Done,
        state is Done ==> verify_step(state, answer, now).0 == state,
        !(state is Done) ==> verify_steps_left(verify_step(state, answer, now).0)
            < verify_steps_left(state),
{
}

/// How many steps the creation of a session is from its end, at most.
pub open spec fn create_steps_left(state: Create) -> nat {
    match state {
        Create::Start { .. } => 2,
        Create::Storing { .. } => 1,
        Create::Done(_) => 0,
    }
}

/// The creation of a session comes to an end: every step brings it closer,
/// it asks nothing of the store exactly when it is over, and then it stays
/// as it is.
pub proof fn law_create_ends(state: Create, answer: Option<Answer>, now: i64, token: String)
    ensures
        create_step(state, answer, now, token).1 is None <==> create_step(
            state,
            answer,
            now,
            token,
        ).0 is Done,
        state is Done ==> create_step(state, answer, now, token).0 == state,
        !(state is Done) ==> create_steps_left(create_step(state, answer, now, token).0)
            < create_steps_left(state),
{
}

/// How many steps the revocation of a session is from its end, at most.
pub open spec fn revoke_steps_left(state: Revoke) -> nat {
    match state {
        Revoke::Start { .. } => 2,
        Revoke::Removing => 1,
        Revoke::Done(_) => 0,
    }
}

/// The revocation of a session comes to an end: every step brings it
/// closer, it asks nothing of the store exactly when it is over, and then it
/// stays as it is.
pub proof fn law_revoke_ends(state: Revoke, answer: Option<Answer>)
    ensures
        revoke_step(state, answer).1 is None <==> revoke_step(state, answer).0 is Done,
        state is Done ==> revoke_step(state, answer).0 == state,
        !(state is Done) ==> revoke_steps_left(revoke_step(state, answer).0) < revoke_steps_left(
            state,
        ),
{
}

} // verus!
