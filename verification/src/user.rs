//! Logging in and registering.
//!
//! Both end by creating a session for the user. The cleartext password
//! stays with the caller, in a buffer that every step takes; a step that
//! has no further use for it leaves the buffer cleared.

use crate::crypto::{
    generate_token, hash_password, is_hash_of, is_token, password_matches, scrub, verify_password,
    MAX_PASSWORD_BYTES,
};
use crate::db::{Answer, CreateUser, Query};
use crate::error::Rejection;
use crate::session::{
    create_at, create_step, create_steps_left, create_with_token, utc_now_millis, Create,
};
use crate::store::{carried_out, Store};
use vstd::prelude::*;

verus! {

/// The states of a login.
#[derive(Debug, PartialEq, Eq)]
pub enum Login {
    /// Nothing was asked yet.
    Start { email: String },
    /// The user with the email address was asked for.
    FindingUser,
    /// The password was right, and the session is being created.
    OpeningSession(Create),
    /// Over: the token of the new session, or why there is none.
    Done(Result<String, Rejection>),
}

/// Whether the password is still needed in this state.
pub open spec fn login_needs_password(state: Login) -> bool {
    state is Start || state is FindingUser
}

/// A login goes on as the creation of its session does, and ends with it.
pub open spec fn login_opening(creation: (Create, Option<Query>)) -> (Login, Option<Query>) {
    match creation.0 {
        Create::Done(outcome) => (Login::Done(outcome), None),
        state => (Login::OpeningSession(state), creation.1),
    }
}

/// One step of a login with `password`, with `token` as the token to use
/// if a session is created.
///
/// The user is looked up by email address. No such user is `NotFound`. A
/// password that the stored hash does not vouch for is `Unauthenticated`.
/// With the right password a session is created for the user, and its token
/// is the outcome.
pub open spec fn login_step(
    state: Login,
    answer: Option<Answer>,
    password: Seq<u8>,
    now: i64,
    token: String,
) -> (Login, Option<Query>) {
    match state {
        Login::Start { email } => (Login::FindingUser, Some(Query::GetUserByEmail { email })),
        Login::FindingUser => match answer {
            Some(Answer::User(Some(user))) => if password_matches(password, user.password@) {
                login_opening(create_step(Create::Start { user: user.id }, None, now, token))
            } else {
                (Login::Done(Err(Rejection::Unauthenticated)), None)
            },
            Some(Answer::User(None)) => (Login::Done(Err(Rejection::NotFound)), None),
            _ => (Login::Done(Err(Rejection::StoreError)), None),
        },
        Login::OpeningSession(creation) => login_opening(
            create_step(creation, answer, now, token),
        ),
        Login::Done(outcome) => (Login::Done(outcome), None),
    }
}

fn login_open(creation: (Create, Option<Query>)) -> (next: (Login, Option<Query>))
    ensures
        next == login_opening(creation),
{
    match creation.0 {
        Create::Done(outcome) => (Login::Done(outcome), None),
        state => (Login::OpeningSession(state), creation.1),
    }
}

/// Advances a login by one step, with `now` as the time; see
/// [`login_step`].
///
/// A session is only ever stored under a fresh token. The password is kept
/// as it is while the user is being looked up, and cleared by the step that
/// has checked it and by every step after that.
pub fn login_at(state: Login, answer: Option<Answer>, password: &mut Vec<u8>, now: i64) -> (next: (
    Login,
    Option<Query>,
))
    ensures
        exists|token: String| next == #[trigger] login_step(state, answer, old(password)@, now, token),
        next.1 matches Some(Query::CreateSession { id, .. }) ==> is_token(id@),
        login_needs_password(next.0) ==> final(password)@ == old(password)@,
        !login_needs_password(next.0) ==> final(password)@ == Seq::<u8>::empty(),
{
    match state {
        Login::Start { email } => {
            let next = (Login::FindingUser, Some(Query::GetUserByEmail { email }));
            assert(next == login_step(state, answer, old(password)@, now, arbitrary()));
            next
        },
        Login::FindingUser => {
            let next = match answer {
                Some(Answer::User(Some(user))) => {
                    let checked = verify_password(password.as_slice(), user.password.as_str());
                    if checked.is_ok() {
                        let token = generate_token();
                        let next = login_open(
                            create_with_token(Create::Start { user: user.id }, None, now, token),
                        );
                        assert(next == login_step(state, answer, old(password)@, now, token));
                        next
                    } else {
                        (Login::Done(Err(Rejection::Unauthenticated)), None)
                    }
                },
                Some(Answer::User(None)) => (Login::Done(Err(Rejection::NotFound)), None),
                _ => (Login::Done(Err(Rejection::StoreError)), None),
            };
            scrub(password);
            assert(next.1 is None ==> next == login_step(
                state,
                answer,
                old(password)@,
                now,
                arbitrary(),
            ));
            next
        },
        Login::OpeningSession(creation) => {
            scrub(password);
            let creation_next = create_at(creation, answer, now);
            let ghost token = choose|token: String|
                creation_next == #[trigger] create_step(creation, answer, now, token);
            let next = login_open(creation_next);
            assert(next == login_step(state, answer, old(password)@, now, token));
            next
        },
        Login::Done(outcome) => {
            scrub(password);
            let next = (Login::Done(outcome), None);
            assert(next == login_step(state, answer, old(password)@, now, arbitrary()));
            next
        },
    }
}

/// Advances a login by one step, at the time the clock shows. Whatever
/// the time is, the step is that of [`login_at`] at that time.
pub fn login_req(state: Login, answer: Option<Answer>, password: &mut Vec<u8>) -> (next: (
    Login,
    Option<Query>,
))
    ensures
        exists|now: i64, token: String| next == #[trigger] login_step(
            state,
            answer,
            old(password)@,
            now,
            token,
        ),
        next.1 matches Some(Query::CreateSession { id, .. }) ==> is_token(id@),
        login_needs_password(next.0) ==> final(password)@ == old(password)@,
        !login_needs_password(next.0) ==> final(password)@ == Seq::<u8>::empty(),
{
    let now = utc_now_millis();
    login_at(state, answer, password, now)
}

/// The states of a registration.
#[derive(Debug, PartialEq, Eq)]
pub enum Register {
    /// Nothing was asked yet.
    Start { username: String, email: String },
    /// The password is hashed, and a user with the email address was asked
    /// for.
    CheckingEmail { username: String, email: String, hashed: String },
    /// The email address was free, and the store was asked to keep the user.
    CreatingUser,
    /// The user is stored, and the session is being created.
    OpeningSession(Create),
    /// Over: the token of the new session, or why there is none.
    Done(Result<String, Rejection>),
}

/// A registration goes on as the creation of its session does, and ends
/// with it.
pub open spec fn register_opening(creation: (Create, Option<Query>)) -> (
    Register,
    Option<Query>,
) {
    match creation.0 {
        Create::Done(outcome) => (Register::Done(outcome), None),
        state => (Register::OpeningSession(state), creation.1),
    }
}

/// One step of a registration, with `hashed` as the hash of the password
/// and `token` as the token to use if a session is created.
///
/// An email address that some user has already is a `Conflict`. Else the
/// user is stored under the username, with the email address and the hash,
/// and a session is created for the user; its token is the outcome.
pub open spec fn register_step(
    state: Register,
    answer: Option<Answer>,
    now: i64,
    hashed: String,
    token: String,
) -> (Register, Option<Query>) {
    match state {
        Register::Start { username, email } => (
            Register::CheckingEmail { username, email, hashed },
            Some(Query::GetUserByEmail { email }),
        ),
        Register::CheckingEmail { username, email, hashed: kept } => match answer {
            Some(Answer::User(Some(_))) => (Register::Done(Err(Rejection::Conflict)), None),
            Some(Answer::User(None)) => (
                Register::CreatingUser,
                Some(Query::CreateUser { id: username, user: CreateUser { email, password: kept } }),
            ),
            _ => (Register::Done(Err(Rejection::StoreError)), None),
        },
        Register::CreatingUser => match answer {
            Some(Answer::User(Some(user))) => register_opening(
                create_step(Create::Start { user: user.id }, None, now, token),
            ),
            _ => (Register::Done(Err(Rejection::StoreError)), None),
        },
        Register::OpeningSession(creation) => register_opening(
            create_step(creation, answer, now, token),
        ),
        Register::Done(outcome) => (Register::Done(outcome), None),
    }
}

fn register_open(creation: (Create, Option<Query>)) -> (next: (Register, Option<Query>))
    ensures
        next == register_opening(creation),
{
    match creation.0 {
        Create::Done(outcome) => (Register::Done(outcome), None),
        state => (Register::OpeningSession(state), creation.1),
    }
}

/// Advances a registration by one step, with `now` as the time; see
/// [`register_step`].
///
/// The first step hashes the password under a fresh salt: the hash that is
/// stored is one that the password verifies against. A session is only ever
/// stored under a fresh token. Every step leaves the password cleared.
pub fn register_at(
    state: Register,
    answer: Option<Answer>,
    password: &mut Vec<u8>,
    now: i64,
) -> (next: (Register, Option<Query>))
    requires
        state is Start ==> old(password)@.len() <= MAX_PASSWORD_BYTES,
    ensures
        exists|hashed: String, token: String|
            next == #[trigger] register_step(state, answer, now, hashed, token),
        state is Start ==> (next.0 matches Register::CheckingEmail { hashed, .. } && is_hash_of(
            old(password)@,
            hashed@,
        ) && password_matches(old(password)@, hashed@)),
        next.1 matches Some(Query::CreateSession { id, .. }) ==> is_token(id@),
        final(password)@ == Seq::<u8>::empty(),
{
    match state {
        Register::Start { username, email } => {
            let hashed = hash_password(password.as_slice());
            scrub(password);
            let asked = email.clone();
            let next = (
                Register::CheckingEmail { username, email, hashed },
                Some(Query::GetUserByEmail { email: asked }),
            );
            assert(next == register_step(state, answer, now, hashed, arbitrary()));
            next
        },
        Register::CheckingEmail { username, email, hashed } => {
            scrub(password);
            let next = match answer {
                Some(Answer::User(Some(_))) => (Register::Done(Err(Rejection::Conflict)), None),
                Some(Answer::User(None)) => (
                    Register::CreatingUser,
                    Some(
                        Query::CreateUser {
                            id: username,
                            user: CreateUser { email, password: hashed },
                        },
                    ),
                ),
                _ => (Register::Done(Err(Rejection::StoreError)), None),
            };
            assert(next == register_step(state, answer, now, arbitrary(), arbitrary()));
            next
        },
        Register::CreatingUser => {
            scrub(password);
            match answer {
                Some(Answer::User(Some(user))) => {
                    let token = generate_token();
                    let next = register_open(
                        create_with_token(Create::Start { user: user.id }, None, now, token),
                    );
                    assert(next == register_step(state, answer, now, arbitrary(), token));
                    next
                },
                _ => {
                    let next = (Register::Done(Err(Rejection::StoreError)), None);
                    assert(next == register_step(state, answer, now, arbitrary(), arbitrary()));
                    next
                },
            }
        },
        Register::OpeningSession(creation) => {
            scrub(password);
            let creation_next = create_at(creation, answer, now);
            let ghost token = choose|token: String|
                creation_next == #[trigger] create_step(creation, answer, now, token);
            let next = register_open(creation_next);
            assert(next == register_step(state, answer, now, arbitrary(), token));
            next
        },
        Register::Done(outcome) => {
            scrub(password);
            let next = (Register::Done(outcome), None);
            assert(next == register_step(state, answer, now, arbitrary(), arbitrary()));
            next
        },
    }
}

/// Advances a registration by one step, at the time the clock shows.
/// Whatever the time is, the step is that of [`register_at`] at that time.
pub fn register_req(state: Register, answer: Option<Answer>, password: &mut Vec<u8>) -> (next: (
    Register,
    Option<Query>,
))
    requires
        state is Start ==> old(password)@.len() <= MAX_PASSWORD_BYTES,
    ensures
        exists|now: i64, hashed: String, token: String|
            next == #[trigger] register_step(state, answer, now, hashed, token),
        state is Start ==> (next.0 matches Register::CheckingEmail { hashed, .. } && is_hash_of(
            old(password)@,
            hashed@,
        ) && password_matches(old(password)@, hashed@)),
        next.1 matches Some(Query::CreateSession { id, .. }) ==> is_token(id@),
        final(password)@ == Seq::<u8>::empty(),
{
    let now = utc_now_millis();
    register_at(state, answer, password, now)
}

/// An email address registers once: if some user has the address and the
/// store answers the lookup, the registration ends in `Conflict`, and
/// nothing is written.
pub proof fn law_taken_email_conflicts(
    before: Store,
    username: String,
    email: String,
    hashed: String,
    found: Answer,
    after: Store,
    now: i64,
    token: String,
)
    requires
        before.email_taken(email@),
        carried_out(before, Query::GetUserByEmail { email }, found, after),
    ensures
        register_step(
            Register::CheckingEmail { username, email, hashed },
            Some(found),
            now,
            hashed,
            token,
        ) == (Register::Done(Err(Rejection::Conflict)), None::<Query>),
        after == before,
{
}

/// A free email address registers: if no user has the address and the
/// store answers the lookup, the registration asks the store to keep the
/// user under the username, with the address and the hash of the password.
pub proof fn law_free_email_registers(
    before: Store,
    username: String,
    email: String,
    hashed: String,
    found: Answer,
    after: Store,
    now: i64,
    token: String,
)
    requires
        !before.email_taken(email@),
        carried_out(before, Query::GetUserByEmail { email }, found, after),
    ensures
        register_step(
            Register::CheckingEmail { username, email, hashed },
            Some(found),
            now,
            hashed,
            token,
        ) == (
            Register::CreatingUser,
            Some(Query::CreateUser { id: username, user: CreateUser { email, password: hashed } }),
        ),
{
}

/// Who has registered can log in: once the store has kept a user whose
/// hash vouches for the password, under an email address that nobody had
/// before, a login with that address and password asks for a session of
/// that user, under the token given.
pub proof fn law_registered_user_logs_in(
    before: Store,
    username: String,
    email: String,
    hashed: String,
    made: Answer,
    between: Store,
    password: Seq<u8>,
    found: Answer,
    after: Store,
    now: i64,
    token: String,
)
    requires
        !before.email_taken(email@),
        password_matches(password, hashed@),
        carried_out(
            before,
            Query::CreateUser { id: username, user: CreateUser { email, password: hashed } },
            made,
            between,
        ),
        made matches Answer::User(Some(_)),
        carried_out(between, Query::GetUserByEmail { email }, found, after),
    ensures
        login_step(Login::FindingUser, Some(found), password, now, token).0
            == Login::OpeningSession(Create::Storing { token }),
        login_step(Login::FindingUser, Some(found), password, now, token).1 matches Some(
            Query::CreateSession { id, session },
        ) && id == token && session@.user == username@ && session@.created == now,
{
    assert(between.users.contains_key(username@));
    assert(between.email_taken(email@));
    if let Answer::User(Some(user)) = found {
        if user@.id != username@ {
            assert(before.users.contains_key(user@.id));
        }
    }
}

/// A wrong password opens nothing: if the stored hash does not vouch for
/// the password, the login ends as `Unauthenticated` and asks nothing more
/// of the store.
pub proof fn law_wrong_password_is_refused(
    user: crate::db::User,
    password: Seq<u8>,
    now: i64,
    token: String,
)
    requires
        !password_matches(password, user@.password),
    ensures
        login_step(Login::FindingUser, Some(Answer::User(Some(user))), password, now, token) == (
            Login::Done(Err(Rejection::Unauthenticated)),
            None::<Query>,
        ),
{
}

/// How many steps a login is from its end, at most.
pub open spec fn login_steps_left(state: Login) -> nat {
    match state {
        Login::Start { .. } => 5,
        Login::FindingUser => 4,
        Login::OpeningSession(creation) => 1 + create_steps_left(creation),
        Login::Done(_) => 0,
    }
}

/// A login comes to an end: every step brings it closer, it asks nothing of
/// the store exactly when it is over, and then it stays as it is.
pub proof fn law_login_ends(
    state: Login,
    answer: Option<Answer>,
    password: Seq<u8>,
    now: i64,
    token: String,
)
    ensures
        login_step(state, answer, password, now, token).1 is None <==> login_step(
            state,
            answer,
            password,
            now,
            token,
        ).0 is Done,
        state is Done ==> login_step(state, answer, password, now, token).0 == state,
        !(state is Done) ==> login_steps_left(login_step(state, answer, password, now, token).0)
            < login_steps_left(state),
{
}

/// How many steps a registration is from its end, at most.
pub open spec fn register_steps_left(state: Register) -> nat {
    match state {
        Register::Start { .. } => 6,
        Register::CheckingEmail { .. } => 5,
        Register::CreatingUser => 4,
        Register::OpeningSession(creation) => 1 + create_steps_left(creation),
        Register::Done(_) => 0,
    }
}

/// A registration comes to an end: every step brings it closer, it asks
/// nothing of the store exactly when it is over, and then it stays as it is.
pub proof fn law_register_ends(
    state: Register,
    answer: Option<Answer>,
    now: i64,
    hashed: String,
    token: String,
)
    ensures
        register_step(state, answer, now, hashed, token).1 is None <==> register_step(
            state,
            answer,
            now,
            hashed,
            token,
        ).0 is Done,
        state is Done ==> register_step(state, answer, now, hashed, token).0 == state,
        !(state is Done) ==> register_steps_left(
            register_step(state, answer, now, hashed, token).0,
        ) < register_steps_left(state),
{
}

} // verus!
