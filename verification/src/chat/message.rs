//! Messages: reading those of a group, and posting one.

use crate::chat::{checked, Checked};
use crate::db::{Answer, CreateMessage, Message, Query, Session};
use crate::error::Rejection;
use crate::gate::{can_post_message, can_view_group, may_post, may_view};
use crate::session::{utc_now_millis, verify_step, verify_steps_left, Verify};
use crate::store::{carried_out, newest_first, Store};
use vstd::prelude::*;

verus! {

/// The states of a request for the messages of a group.
#[derive(Debug, PartialEq, Eq)]
pub enum Get {
    /// The session is being checked.
    Verifying { check: Verify, group: String, count: u64, offset: u64 },
    /// The session is valid, and the group was asked for.
    FindingGroup { session: Session, count: u64, offset: u64 },
    /// The user is a member, and the messages were asked for.
    Fetching,
    /// Over: the page of messages, or why there is none.
    Done(Result<Vec<Message>, Rejection>),
}

/// One step of a request for the messages of a group.
///
/// Only a member of the group reads its messages: anybody else is
/// `Unauthorized`, and a group that does not exist is `NotFound`. The page
/// is the store's, as it gave it; `count` and `offset` go to the store as
/// they are.
pub open spec fn get_step(state: Get, answer: Option<Answer>, now: i64) -> (Get, Option<Query>) {
    match state {
        Get::Verifying { check, group, count, offset } => match checked(
            verify_step(check, answer, now),
        ) {
            Checked::Pending(check, query) => (
                Get::Verifying { check, group, count, offset },
                query,
            ),
            Checked::Session(session) => (
                Get::FindingGroup { session, count, offset },
                Some(Query::GetGroup { id: group }),
            ),
            Checked::Refused(why) => (Get::Done(Err(why)), None),
        },
        Get::FindingGroup { session, count, offset } => match answer {
            Some(Answer::Group(Some(group))) => if may_view(session@.user, group@) {
                (Get::Fetching, Some(Query::GetMessages { group: group.id, count, offset }))
            } else {
                (Get::Done(Err(Rejection::Unauthorized)), None)
            },
            Some(Answer::Group(None)) => (Get::Done(Err(Rejection::NotFound)), None),
            _ => (Get::Done(Err(Rejection::StoreError)), None),
        },
        Get::Fetching => match answer {
            Some(Answer::Messages(page)) => (Get::Done(Ok(page)), None),
            _ => (Get::Done(Err(Rejection::StoreError)), None),
        },
        Get::Done(outcome) => (Get::Done(outcome), None),
    }
}

/// Advances a request for the messages of a group by one step, with `now`
/// as the time; see [`get_step`].
pub fn get_at(state: Get, answer: Option<Answer>, now: i64) -> (next: (Get, Option<Query>))
    ensures
        next == get_step(state, answer, now),
{
    match state {
        Get::Verifying { check, group, count, offset } => match crate::chat::check(
            check,
            answer,
            now,
        ) {
            Checked::Pending(check, query) => (
                Get::Verifying { check, group, count, offset },
                query,
            ),
            Checked::Session(session) => (
                Get::FindingGroup { session, count, offset },
                Some(Query::GetGroup { id: group }),
            ),
            Checked::Refused(why) => (Get::Done(Err(why)), None),
        },
        Get::FindingGroup { session, count, offset } => match answer {
            Some(Answer::Group(Some(group))) => {
                if can_view_group(&session, &group) {
                    (Get::Fetching, Some(Query::GetMessages { group: group.id, count, offset }))
                } else {
                    (Get::Done(Err(Rejection::Unauthorized)), None)
                }
            },
            Some(Answer::Group(None)) => (Get::Done(Err(Rejection::NotFound)), None),
            _ => (Get::Done(Err(Rejection::StoreError)), None),
        },
        Get::Fetching => match answer {
            Some(Answer::Messages(page)) => (Get::Done(Ok(page)), None),
            _ => (Get::Done(Err(Rejection::StoreError)), None),
        },
        Get::Done(outcome) => (Get::Done(outcome), None),
    }
}

/// Advances a request for the messages of a group by one step, at the time
/// the clock shows. Whatever the time is, the step is that of [`get_step`]
/// at that time.
pub fn get(state: Get, answer: Option<Answer>) -> (next: (Get, Option<Query>))
    ensures
        exists|now: i64| next == #[trigger] get_step(state, answer, now),
{
    let now = utc_now_millis();
    get_at(state, answer, now)
}

/// The states of the posting of a message.
#[derive(Debug, PartialEq, Eq)]
pub enum Send {
    /// The session is being checked.
    Verifying { check: Verify, group: String, text: String },
    /// The session is valid, and the group was asked for.
    FindingGroup { session: Session, text: String },
    /// The user is a member, and the store was asked to keep the message.
    Storing,
    /// Over: the message as it was stored, or why there is none.
    Done(Result<Message, Rejection>),
}

/// One step of the posting of a message.
///
/// Only a member of the group posts to it: anybody else is `Unauthorized`,
/// and a group that does not exist is `NotFound`. The message is stored
/// with the user of the session as its author and `now` as its time of
/// creation.
pub open spec fn send_step(state: Send, answer: Option<Answer>, now: i64) -> (
    Send,
    Option<Query>,
) {
    match state {
        Send::Verifying { check, group, text } => match checked(verify_step(check, answer, now)) {
            Checked::Pending(check, query) => (Send::Verifying { check, group, text }, query),
            Checked::Session(session) => (
                Send::FindingGroup { session, text },
                Some(Query::GetGroup { id: group }),
            ),
            Checked::Refused(why) => (Send::Done(Err(why)), None),
        },
        Send::FindingGroup { session, text } => match answer {
            Some(Answer::Group(Some(group))) => if may_post(session@.user, group@) {
                (
                    Send::Storing,
                    Some(
                        Query::CreateMessage {
                            message: CreateMessage {
                                group: group.id,
                                author: session.user,
                                text,
                                created: now,
                            },
                        },
                    ),
                )
            } else {
                (Send::Done(Err(Rejection::Unauthorized)), None)
            },
            Some(Answer::Group(None)) => (Send::Done(Err(Rejection::NotFound)), None),
            _ => (Send::Done(Err(Rejection::StoreError)), None),
        },
        Send::Storing => match answer {
            Some(Answer::Message(Some(message))) => (Send::Done(Ok(message)), None),
            _ => (Send::Done(Err(Rejection::StoreError)), None),
        },
        Send::Done(outcome) => (Send::Done(outcome), None),
    }
}

/// Advances the posting of a message by one step, with `now` as the time;
/// see [`send_step`].
pub fn send_at(state: Send, answer: Option<Answer>, now: i64) -> (next: (Send, Option<Query>))
    ensures
        next == send_step(state, answer, now),
{
    match state {
        Send::Verifying { check, group, text } => match crate::chat::check(check, answer, now) {
            Checked::Pending(check, query) => (Send::Verifying { check, group, text }, query),
            Checked::Session(session) => (
                Send::FindingGroup { session, text },
                Some(Query::GetGroup { id: group }),
            ),
            Checked::Refused(why) => (Send::Done(Err(why)), None),
        },
        Send::FindingGroup { session, text } => match answer {
            Some(Answer::Group(Some(group))) => {
                if can_post_message(&session, &group) {
                    (
                        Send::Storing,
                        Some(
                            Query::CreateMessage {
                                message: CreateMessage {
                                    group: group.id,
                                    author: session.user,
                                    text,
                                    created: now,
                                },
                            },
                        ),
                    )
                } else {
                    (Send::Done(Err(Rejection::Unauthorized)), None)
                }
            },
            Some(Answer::Group(None)) => (Send::Done(Err(Rejection::NotFound)), None),
            _ => (Send::Done(Err(Rejection::StoreError)), None),
        },
        Send::Storing => match answer {
            Some(Answer::Message(Some(message))) => (Send::Done(Ok(message)), None),
            _ => (Send::Done(Err(Rejection::StoreError)), None),
        },
        Send::Done(outcome) => (Send::Done(outcome), None),
    }
}

/// Advances the posting of a message by one step, at the time the clock
/// shows. Whatever the time is, the step is that of [`send_step`] at that
/// time.
pub fn send(state: Send, answer: Option<Answer>) -> (next: (Send, Option<Query>))
    ensures
        exists|now: i64| next == #[trigger] send_step(state, answer, now),
{
    let now = utc_now_millis();
    send_at(state, answer, now)
}

/// An author is a member at the time of writing: whenever a step asks the
/// store to keep a message, the store has just shown the group, the user of
/// the session is one of its members, and the message is that user's, for
/// that group, at that time.
pub proof fn law_only_members_post(state: Send, answer: Option<Answer>, now: i64)
    requires
        send_step(state, answer, now).1 matches Some(Query::CreateMessage { .. }),
    ensures
        state matches Send::FindingGroup { session, text } && (answer matches Some(
            Answer::Group(Some(group)),
        ) && (send_step(state, answer, now).1 matches Some(Query::CreateMessage { message })
            && group@.members.contains(message@.author) && message@.author == session@.user
            && message@.group == group@.id && message@.text == text@ && message@.created == now)),
{
    match state {
        Send::Verifying { check, group, text } => {
            assert(verify_step(check, answer, now).1 matches Some(query) ==> query is GetSession
                || query is RemoveSession);
        },
        _ => {},
    }
}

/// Only members read: whenever a step asks the store for the messages of a
/// group, the store has just shown that group, and the user of the session
/// is one of its members.
pub proof fn law_only_members_read(state: Get, answer: Option<Answer>, now: i64)
    requires
        get_step(state, answer, now).1 matches Some(Query::GetMessages { .. }),
    ensures
        state matches Get::FindingGroup { session, count, offset } && (answer matches Some(
            Answer::Group(Some(group)),
        ) && (group@.members.contains(session@.user) && get_step(state, answer, now).1 == Some(
            Query::GetMessages { group: group.id, count, offset },
        ))),
{
    match state {
        Get::Verifying { check, group, count, offset } => {
            assert(verify_step(check, answer, now).1 matches Some(query) ==> query is GetSession
                || query is RemoveSession);
        },
        _ => {},
    }
}

/// The page that a reader gets is the store's: if the store carries the
/// request out, the outcome is its page, of at most `count` messages of
/// that group, newest first.
pub proof fn law_page_is_the_stores(
    before: Store,
    group: String,
    count: u64,
    offset: u64,
    answer: Answer,
    after: Store,
    now: i64,
)
    requires
        carried_out(before, Query::GetMessages { group, count, offset }, answer, after),
    ensures
        get_step(Get::Fetching, Some(answer), now).0 matches Get::Done(Ok(page)) && (page@.len()
            <= count && newest_first(page@) && forall|i: int|
            0 <= i < page@.len() ==> (#[trigger] page@[i])@.group == group@),
        after == before,
{
}

/// In a page that is newest first, a message comes before every message
/// that is older than it.
pub proof fn law_newer_messages_come_first(page: Seq<Message>, newer: int, older: int)
    requires
        newest_first(page),
        0 <= newer < page.len(),
        0 <= older < page.len(),
        page[newer]@.created > page[older]@.created,
    ensures
        newer < older,
{
    if older <= newer {
        assert(page[older]@.created >= page[newer]@.created);
    }
}

/// How many steps a request for the messages of a group is from its end,
/// at most.
pub open spec fn get_steps_left(state: Get) -> nat {
    match state {
        Get::Verifying { check, .. } => 3 + verify_steps_left(check),
        Get::FindingGroup { .. } => 2,
        Get::Fetching => 1,
        Get::Done(_) => 0,
    }
}

/// A request for the messages of a group comes to an end: every step brings
/// it closer, it asks nothing of the store exactly when it is over, and
/// then it stays as it is.
pub proof fn law_get_ends(state: Get, answer: Option<Answer>, now: i64)
    ensures
        get_step(state, answer, now).1 is None <==> get_step(state, answer, now).0 is Done,
        state is Done ==> get_step(state, answer, now).0 == state,
        !(state is Done) ==> get_steps_left(get_step(state, answer, now).0) < get_steps_left(
            state,
        ),
{
}

/// How many steps the posting of a message is from its end, at most.
pub open spec fn send_steps_left(state: Send) -> nat {
    match state {
        Send::Verifying { check, .. } => 3 + verify_steps_left(check),
        Send::FindingGroup { .. } => 2,
        Send::Storing => 1,
        Send::Done(_) => 0,
    }
}

/// The posting of a message comes to an end: every step brings it closer,
/// it asks nothing of the store exactly when it is over, and then it stays
/// as it is.
pub proof fn law_send_ends(state: Send, answer: Option<Answer>, now: i64)
    ensures
        send_step(state, answer, now).1 is None <==> send_step(state, answer, now).0 is Done,
        state is Done ==> send_step(state, answer, now).0 == state,
        !(state is Done) ==> send_steps_left(send_step(state, answer, now).0) < send_steps_left(
            state,
        ),
{
}

} // verus!
