//! The pages of the chat, behind the session check that every operation of
//! the chat begins with.

pub mod group;
pub mod message;

use crate::db::{Answer, Query, Session};
use crate::error::Rejection;
use crate::gate::{can_view_group, may_view};
use crate::pages::Page;
use crate::session::{
    utc_now_millis, verify_at, verify_step, verify_steps_left, Verdict, Verify,
};
use vstd::prelude::*;

verus! {

/// Where the session check of an operation stands.
#[derive(Debug, PartialEq, Eq)]
pub enum Checked {
    /// The check goes on: its state, and what it asks of the store.
    Pending(Verify, Option<Query>),
    /// The request comes with this valid session.
    Session(Session),
    /// There is no valid session, or the store could not tell.
    Refused(Rejection),
}

/// How an operation reads a step of its session check: a valid session
/// lets it go on, an invalid one is `Unauthenticated`, and a failure of the
/// store is a `StoreError`.
pub open spec fn checked(next: (Verify, Option<Query>)) -> Checked {
    match next.0 {
        Verify::Done(Verdict::Valid(session)) => Checked::Session(session),
        Verify::Done(Verdict::Invalid) => Checked::Refused(Rejection::Unauthenticated),
        Verify::Done(Verdict::StoreError) => Checked::Refused(Rejection::StoreError),
        state => Checked::Pending(state, next.1),
    }
}

/// Advances the session check of an operation by one step.
pub fn check(state: Verify, answer: Option<Answer>, now: i64) -> (step: Checked)
    ensures
        step == checked(verify_step(state, answer, now)),
{
    let next = verify_at(state, answer, now);
    match next.0 {
        Verify::Done(Verdict::Valid(session)) => Checked::Session(session),
        Verify::Done(Verdict::Invalid) => Checked::Refused(Rejection::Unauthenticated),
        Verify::Done(Verdict::StoreError) => Checked::Refused(Rejection::StoreError),
        state => Checked::Pending(state, next.1),
    }
}

/// The states of a request for the home page of the chat.
#[derive(Debug, PartialEq, Eq)]
pub enum HomePage {
    /// The session is being checked.
    Verifying(Verify),
    /// Over: the page, or why it is not shown.
    Done(Result<Page, Rejection>),
}

/// One step of a request for the home page: whoever has a valid session
/// gets the page.
pub open spec fn home_page_step(state: HomePage, answer: Option<Answer>, now: i64) -> (
    HomePage,
    Option<Query>,
) {
    match state {
        HomePage::Verifying(check) => match checked(verify_step(check, answer, now)) {
            Checked::Pending(check, query) => (HomePage::Verifying(check), query),
            Checked::Session(_) => (HomePage::Done(Ok(Page::ChatHome)), None),
            Checked::Refused(why) => (HomePage::Done(Err(why)), None),
        },
        HomePage::Done(outcome) => (HomePage::Done(outcome), None),
    }
}

/// Advances a request for the home page by one step, with `now` as the
/// time; see [`home_page_step`].
pub fn home_page_at(state: HomePage, answer: Option<Answer>, now: i64) -> (next: (
    HomePage,
    Option<Query>,
))
    ensures
        next == home_page_step(state, answer, now),
{
    match state {
        HomePage::Verifying(check) => match crate::chat::check(check, answer, now) {
            Checked::Pending(check, query) => (HomePage::Verifying(check), query),
            Checked::Session(_) => (HomePage::Done(Ok(Page::ChatHome)), None),
            Checked::Refused(why) => (HomePage::Done(Err(why)), None),
        },
        HomePage::Done(outcome) => (HomePage::Done(outcome), None),
    }
}

/// Advances a request for the home page by one step, at the time the clock
/// shows. Whatever the time is, the step is that of [`home_page_step`] at
/// that time.
pub fn home_page(state: HomePage, answer: Option<Answer>) -> (next: (HomePage, Option<Query>))
    ensures
        exists|now: i64| next == #[trigger] home_page_step(state, answer, now),
{
    let now = utc_now_millis();
    home_page_at(state, answer, now)
}

/// The states of a request for the page of a group.
#[derive(Debug, PartialEq, Eq)]
pub enum GroupPage {
    /// The session is being checked.
    Verifying { check: Verify, group: String },
    /// The session is valid, and the group was asked for.
    FindingGroup { session: Session },
    /// Over: the page, or why it is not shown.
    Done(Result<Page, Rejection>),
}

/// One step of a request for the page of a group: a member of the group
/// gets the page. A group that does not exist is `NotFound`; one that the
/// user is no member of is `Unauthorized`.
pub open spec fn group_page_step(state: GroupPage, answer: Option<Answer>, now: i64) -> (
    GroupPage,
    Option<Query>,
) {
    match state {
        GroupPage::Verifying { check, group } => match checked(verify_step(check, answer, now)) {
            Checked::Pending(check, query) => (GroupPage::Verifying { check, group }, query),
            Checked::Session(session) => (
                GroupPage::FindingGroup { session },
                Some(Query::GetGroup { id: group }),
            ),
            Checked::Refused(why) => (GroupPage::Done(Err(why)), None),
        },
        GroupPage::FindingGroup { session } => match answer {
            Some(Answer::Group(Some(group))) => if may_view(session@.user, group@) {
                (GroupPage::Done(Ok(Page::ChatGroup)), None)
            } else {
                (GroupPage::Done(Err(Rejection::Unauthorized)), None)
            },
            Some(Answer::Group(None)) => (GroupPage::Done(Err(Rejection::NotFound)), None),
            _ => (GroupPage::Done(Err(Rejection::StoreError)), None),
        },
        GroupPage::Done(outcome) => (GroupPage::Done(outcome), None),
    }
}

/// Advances a request for the page of a group by one step, with `now` as
/// the time; see [`group_page_step`].
pub fn group_page_at(state: GroupPage, answer: Option<Answer>, now: i64) -> (next: (
    GroupPage,
    Option<Query>,
))
    ensures
        next == group_page_step(state, answer, now),
{
    match state {
        GroupPage::Verifying { check, group } => match crate::chat::check(check, answer, now) {
            Checked::Pending(check, query) => (GroupPage::Verifying { check, group }, query),
            Checked::Session(session) => (
                GroupPage::FindingGroup { session },
                Some(Query::GetGroup { id: group }),
            ),
            Checked::Refused(why) => (GroupPage::Done(Err(why)), None),
        },
        GroupPage::FindingGroup { session } => match answer {
            Some(Answer::Group(Some(group))) => {
                if can_view_group(&session, &group) {
                    (GroupPage::Done(Ok(Page::ChatGroup)), None)
                } else {
                    (GroupPage::Done(Err(Rejection::Unauthorized)), None)
                }
            },
            Some(Answer::Group(None)) => (GroupPage::Done(Err(Rejection::NotFound)), None),
            _ => (GroupPage::Done(Err(Rejection::StoreError)), None),
        },
        GroupPage::Done(outcome) => (GroupPage::Done(outcome), None),
    }
}

/// Advances a request for the page of a group by one step, at the time the
/// clock shows. Whatever the time is, the step is that of
/// [`group_page_step`] at that time.
pub fn group_page(state: GroupPage, answer: Option<Answer>) -> (next: (GroupPage, Option<Query>))
    ensures
        exists|now: i64| next == #[trigger] group_page_step(state, answer, now),
{
    let now = utc_now_millis();
    group_page_at(state, answer, now)
}

/// How many steps a request for the home page is from its end, at most.
pub open spec fn home_page_steps_left(state: HomePage) -> nat {
    match state {
        HomePage::Verifying(check) => 1 + verify_steps_left(check),
        HomePage::Done(_) => 0,
    }
}

/// A request for the home page comes to an end: every step brings it
/// closer, it asks nothing of the store exactly when it is over, and then
/// it stays as it is.
pub proof fn law_home_page_ends(state: HomePage, answer: Option<Answer>, now: i64)
    ensures
        home_page_step(state, answer, now).1 is None <==> home_page_step(state, answer, now).0
            is Done,
        state is Done ==> home_page_step(state, answer, now).0 == state,
        !(state is Done) ==> home_page_steps_left(home_page_step(state, answer, now).0)
            < home_page_steps_left(state),
{
}

/// How many steps a request for the page of a group is from its end, at
/// most.
pub open spec fn group_page_steps_left(state: GroupPage) -> nat {
    match state {
        GroupPage::Verifying { check, .. } => 2 + verify_steps_left(check),
        GroupPage::FindingGroup { .. } => 1,
        GroupPage::Done(_) => 0,
    }
}

/// A request for the page of a group comes to an end: every step brings it
/// closer, it asks nothing of the store exactly when it is over, and then
/// it stays as it is.
pub proof fn law_group_page_ends(state: GroupPage, answer: Option<Answer>, now: i64)
    ensures
        group_page_step(state, answer, now).1 is None <==> group_page_step(state, answer, now).0
            is Done,
        state is Done ==> group_page_step(state, answer, now).0 == state,
        !(state is Done) ==> group_page_steps_left(group_page_step(state, answer, now).0)
            < group_page_steps_left(state),
{
}

} // verus!
