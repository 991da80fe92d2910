//! Groups: listing one's own, founding one, and changing the members of one.

use crate::chat::{checked, Checked};
use crate::db::{id_set, Answer, CreateGroup, Group, Query, Session};
use crate::error::Rejection;
use crate::gate::{can_manage_members, may_manage};
use crate::session::{utc_now_millis, verify_step, verify_steps_left, Verify};
use crate::store::{spares_owners, Store};
use vstd::prelude::*;

verus! {

/// What a listing tells of a group.
#[derive(Clone, Debug, PartialEq, Eq)]
pub struct GroupInfo {
    pub id: String,
    pub name: String,
}

/// What a listing tells of `group`: its id and its name, and nothing of its
/// members.
pub open spec fn info_of(group: Group) -> GroupInfo {
    GroupInfo { id: group.id, name: group.name }
}

/// `infos` tells of each of `groups`, in their order.
pub open spec fn infos_of(groups: Seq<Group>, infos: Seq<GroupInfo>) -> bool {
    &&& infos.len() == groups.len()
    &&& forall|i: int| 0 <= i < groups.len() ==> #[trigger] infos[i] == info_of(groups[i])
}

/// What a listing tells of each of the groups.
pub fn infos(groups: &Vec<Group>) -> (list: Vec<GroupInfo>)
    ensures
        infos_of(groups@, list@),
{
    let mut list: Vec<GroupInfo> = Vec::new();
    let mut i: usize = 0;
    while i < groups.len()
        invariant
            i <= groups@.len(),
            list@.len() == i,
            forall|j: int| 0 <= j < i ==> #[trigger] list@[j] == info_of(groups@[j]),
        decreases groups@.len() - i,
    {
        let group = &groups[i];
        list.push(GroupInfo { id: group.id.clone(), name: group.name.clone() });
        i += 1;
    }
    list
}

/// The states of a request for the groups of the user.
#[derive(Debug, PartialEq, Eq)]
pub enum Get {
    /// The session is being checked.
    Verifying { check: Verify, count: u64, offset: u64 },
    /// The session is valid, and the groups were asked for.
    Listing,
    /// Over: the page of groups, or why there is none.
    Done(Result<Vec<GroupInfo>, Rejection>),
}

/// One step of a request for the groups of the user, with `listing` as
/// what is told of the page that the store gives.
///
/// The groups asked for are those that the user of the session is a member
/// of; `count` and `offset` go to the store as they are.
pub open spec fn get_step(
    state: Get,
    answer: Option<Answer>,
    now: i64,
    listing: Vec<GroupInfo>,
) -> (Get, Option<Query>) {
    match state {
        Get::Verifying { check, count, offset } => match checked(verify_step(check, answer, now)) {
            Checked::Pending(check, query) => (Get::Verifying { check, count, offset }, query),
            Checked::Session(session) => (
                Get::Listing,
                Some(Query::GetGroupsByMember { member: session.user, offset, count }),
            ),
            Checked::Refused(why) => (Get::Done(Err(why)), None),
        },
        Get::Listing => match answer {
            Some(Answer::Groups(_)) => (Get::Done(Ok(listing)), None),
            _ => (Get::Done(Err(Rejection::StoreError)), None),
        },
        Get::Done(outcome) => (Get::Done(outcome), None),
    }
}

/// Advances a request for the groups of the user by one step, with `now`
/// as the time; see [`get_step`]. The listing tells the id and the name of
/// each group of the page, in the order of the page.
pub fn get_at(state: Get, answer: Option<Answer>, now: i64) -> (next: (Get, Option<Query>))
    ensures
        exists|listing: Vec<GroupInfo>| next == #[trigger] get_step(state, answer, now, listing),
        state is Listing ==> (answer matches Some(Answer::Groups(page)) ==> (next.0 matches Get::Done(
            Ok(listing),
        ) && infos_of(page@, listing@))),
{
    match state {
        Get::Verifying { check, count, offset } => {
            let next = match crate::chat::check(check, answer, now) {
                Checked::Pending(check, query) => (Get::Verifying { check, count, offset }, query),
                Checked::Session(session) => (
                    Get::Listing,
                    Some(Query::GetGroupsByMember { member: session.user, offset, count }),
                ),
                Checked::Refused(why) => (Get::Done(Err(why)), None),
            };
            assert(next == get_step(state, answer, now, arbitrary()));
            next
        },
        Get::Listing => match answer {
            Some(Answer::Groups(page)) => {
                let listing = infos(&page);
                let next = (Get::Done(Ok(listing)), None);
                assert(next == get_step(state, answer, now, listing));
                next
            },
            _ => {
                let next = (Get::Done(Err(Rejection::StoreError)), None);
                assert(next == get_step(state, answer, now, arbitrary()));
                next
            },
        },
        Get::Done(outcome) => {
            let next = (Get::Done(outcome), None);
            assert(next == get_step(state, answer, now, arbitrary()));
            next
        },
    }
}

/// Advances a request for the groups of the user by one step, at the time
/// the clock shows. Whatever the time is, the step is that of [`get_at`] at
/// that time.
pub fn get(state: Get, answer: Option<Answer>) -> (next: (Get, Option<Query>))
    ensures
        exists|now: i64, listing: Vec<GroupInfo>| next == #[trigger] get_step(
            state,
            answer,
            now,
            listing,
        ),
        state is Listing ==> (answer matches Some(Answer::Groups(page)) ==> (next.0 matches Get::Done(
            Ok(listing),
        ) && infos_of(page@, listing@))),
{
    let now = utc_now_millis();
    get_at(state, answer, now)
}

/// The states of the founding of a group.
#[derive(Debug, PartialEq, Eq)]
pub enum Create {
    /// The session is being checked.
    Verifying { check: Verify, name: String },
    /// The session is valid, and the store was asked to keep the group.
    Founding,
    /// Over: the new group, or why there is none.
    Done(Result<GroupInfo, Rejection>),
}

/// One step of the founding of a group, with `members` as its first
/// members.
///
/// The user of the session owns the group, and `now` is its time of
/// creation.
pub open spec fn create_step(
    state: Create,
    answer: Option<Answer>,
    now: i64,
    members: Vec<String>,
) -> (Create, Option<Query>) {
    match state {
        Create::Verifying { check, name } => match checked(verify_step(check, answer, now)) {
            Checked::Pending(check, query) => (Create::Verifying { check, name }, query),
            Checked::Session(session) => (
                Create::Founding,
                Some(
                    Query::CreateGroup {
                        group: CreateGroup { owner: session.user, name, members, created: now },
                    },
                ),
            ),
            Checked::Refused(why) => (Create::Done(Err(why)), None),
        },
        Create::Founding => match answer {
            Some(Answer::Group(Some(group))) => (Create::Done(Ok(info_of(group))), None),
            _ => (Create::Done(Err(Rejection::StoreError)), None),
        },
        Create::Done(outcome) => (Create::Done(outcome), None),
    }
}

/// Advances the founding of a group by one step, with `now` as the time;
/// see [`create_step`]. The owner is the first and only member of a group
/// that is founded.
pub fn create_at(state: Create, answer: Option<Answer>, now: i64) -> (next: (
    Create,
    Option<Query>,
))
    ensures
        exists|members: Vec<String>| next == #[trigger] create_step(state, answer, now, members),
        next.1 matches Some(Query::CreateGroup { group }) ==> group.members@ == seq![group.owner]
            && group@.members == set![group@.owner],
{
    match state {
        Create::Verifying { check, name } => match crate::chat::check(check, answer, now) {
            Checked::Pending(pending, query) => {
                let next = (Create::Verifying { check: pending, name }, query);
                assert(next == create_step(state, answer, now, arbitrary()));
                assert(next.1 == verify_step(check, answer, now).1);
                next
            },
            Checked::Session(session) => {
                let mut members: Vec<String> = Vec::new();
                members.push(session.user.clone());
                let group = CreateGroup { owner: session.user, name, members, created: now };
                assert(group.members@ == seq![group.owner]);
                assert(group@.members == set![group@.owner]) by {
                    assert(group.members@[0]@ == group.owner@);
                    assert(id_set(group.members@) =~= set![group.owner@]);
                }
                let next = (Create::Founding, Some(Query::CreateGroup { group }));
                assert(next == create_step(state, answer, now, members));
                next
            },
            Checked::Refused(why) => {
                let next = (Create::Done(Err(why)), None);
                assert(next == create_step(state, answer, now, arbitrary()));
                next
            },
        },
        Create::Founding => {
            let next = match answer {
                Some(Answer::Group(Some(group))) => (
                    Create::Done(Ok(GroupInfo { id: group.id, name: group.name })),
                    None,
                ),
                _ => (Create::Done(Err(Rejection::StoreError)), None),
            };
            assert(next == create_step(state, answer, now, arbitrary()));
            next
        },
        Create::Done(outcome) => {
            let next = (Create::Done(outcome), None);
            assert(next == create_step(state, answer, now, arbitrary()));
            next
        },
    }
}

/// Advances the founding of a group by one step, at the time the clock
/// shows. Whatever the time is, the step is that of [`create_at`] at that
/// time.
pub fn create(state: Create, answer: Option<Answer>) -> (next: (Create, Option<Query>))
    ensures
        exists|now: i64, members: Vec<String>| next == #[trigger] create_step(
            state,
            answer,
            now,
            members,
        ),
        next.1 matches Some(Query::CreateGroup { group }) ==> group.members@ == seq![group.owner]
            && group@.members == set![group@.owner],
{
    let now = utc_now_millis();
    create_at(state, answer, now)
}

/// The states of a change of the members of a group.
#[derive(Debug, PartialEq, Eq)]
pub enum Member {
    /// The session is being checked. `user` is to be added to `group`, or
    /// taken out of it if `remove` is set.
    Verifying { check: Verify, group: String, user: String, remove: bool },
    /// The session is valid, and the group was asked for.
    FindingGroup { session: Session, user: String, remove: bool },
    /// The session's user owns the group, and the user to add or remove was
    /// asked for.
    FindingUser { session: Session, group: Group, remove: bool },
    /// The store was asked for the change.
    Changing,
    /// Over.
    Done(Result<(), Rejection>),
}

/// One step of a change of the members of a group.
///
/// Only the owner of a group changes its members: anybody else is
/// `Unauthorized`, whether or not the user to add or remove exists. A group
/// or a user that does not exist is `NotFound`. The owner stays a member:
/// to take the owner out is `Unauthorized` for the owner too.
pub open spec fn member_step(state: Member, answer: Option<Answer>, now: i64) -> (
    Member,
    Option<Query>,
) {
    match state {
        Member::Verifying { check, group, user, remove } => match checked(
            verify_step(check, answer, now),
        ) {
            Checked::Pending(check, query) => (
                Member::Verifying { check, group, user, remove },
                query,
            ),
            Checked::Session(session) => (
                Member::FindingGroup { session, user, remove },
                Some(Query::GetGroup { id: group }),
            ),
            Checked::Refused(why) => (Member::Done(Err(why)), None),
        },
        Member::FindingGroup { session, user, remove } => match answer {
            Some(Answer::Group(Some(group))) => if may_manage(session@.user, group@) {
                (Member::FindingUser { session, group, remove }, Some(Query::GetUser { id: user }))
            } else {
                (Member::Done(Err(Rejection::Unauthorized)), None)
            },
            Some(Answer::Group(None)) => (Member::Done(Err(Rejection::NotFound)), None),
            _ => (Member::Done(Err(Rejection::StoreError)), None),
        },
        Member::FindingUser { session, group, remove } => match answer {
            Some(Answer::User(Some(user))) => if !may_manage(session@.user, group@) {
                (Member::Done(Err(Rejection::Unauthorized)), None)
            } else if !remove {
                (
                    Member::Changing,
                    Some(Query::AddMemberToGroup { group: group.id, member: user.id }),
                )
            } else if user@.id == group@.owner {
                (Member::Done(Err(Rejection::Unauthorized)), None)
            } else {
                (
                    Member::Changing,
                    Some(Query::RemoveMemberFromGroup { group: group.id, member: user.id }),
                )
            },
            Some(Answer::User(None)) => (Member::Done(Err(Rejection::NotFound)), None),
            _ => (Member::Done(Err(Rejection::StoreError)), None),
        },
        Member::Changing => match answer {
            Some(Answer::Group(Some(_))) => (Member::Done(Ok(())), None),
            Some(Answer::Group(None)) => (Member::Done(Err(Rejection::NotFound)), None),
            _ => (Member::Done(Err(Rejection::StoreError)), None),
        },
        Member::Done(outcome) => (Member::Done(outcome), None),
    }
}

/// Advances a change of the members of a group by one step, with `now` as
/// the time; see [`member_step`].
pub fn member_at(state: Member, answer: Option<Answer>, now: i64) -> (next: (
    Member,
    Option<Query>,
))
    ensures
        next == member_step(state, answer, now),
{
    match state {
        Member::Verifying { check, group, user, remove } => match crate::chat::check(
            check,
            answer,
            now,
        ) {
            Checked::Pending(check, query) => (
                Member::Verifying { check, group, user, remove },
                query,
            ),
            Checked::Session(session) => (
                Member::FindingGroup { session, user, remove },
                Some(Query::GetGroup { id: group }),
            ),
            Checked::Refused(why) => (Member::Done(Err(why)), None),
        },
        Member::FindingGroup { session, user, remove } => match answer {
            Some(Answer::Group(Some(group))) => {
                if can_manage_members(&session, &group) {
                    (
                        Member::FindingUser { session, group, remove },
                        Some(Query::GetUser { id: user }),
                    )
                } else {
                    (Member::Done(Err(Rejection::Unauthorized)), None)
                }
            },
            Some(Answer::Group(None)) => (Member::Done(Err(Rejection::NotFound)), None),
            _ => (Member::Done(Err(Rejection::StoreError)), None),
        },
        Member::FindingUser { session, group, remove } => match answer {
            Some(Answer::User(Some(user))) => {
                if !can_manage_members(&session, &group) {
                    (Member::Done(Err(Rejection::Unauthorized)), None)
                } else if !remove {
                    (
                        Member::Changing,
                        Some(Query::AddMemberToGroup { group: group.id, member: user.id }),
                    )
                } else if user.id == group.owner {
                    (Member::Done(Err(Rejection::Unauthorized)), None)
                } else {
                    (
                        Member::Changing,
                        Some(Query::RemoveMemberFromGroup { group: group.id, member: user.id }),
                    )
                }
            },
            Some(Answer::User(None)) => (Member::Done(Err(Rejection::NotFound)), None),
            _ => (Member::Done(Err(Rejection::StoreError)), None),
        },
        Member::Changing => match answer {
            Some(Answer::Group(Some(_))) => (Member::Done(Ok(())), None),
            Some(Answer::Group(None)) => (Member::Done(Err(Rejection::NotFound)), None),
            _ => (Member::Done(Err(Rejection::StoreError)), None),
        },
        Member::Done(outcome) => (Member::Done(outcome), None),
    }
}

/// Advances a change of the members of a group by one step, at the time the
/// clock shows. Whatever the time is, the step is that of [`member_step`]
/// at that time.
pub fn member(state: Member, answer: Option<Answer>) -> (next: (Member, Option<Query>))
    ensures
        exists|now: i64| next == #[trigger] member_step(state, answer, now),
{
    let now = utc_now_millis();
    member_at(state, answer, now)
}

/// Members change at the owner's word only: whenever a step asks the store
/// to add or remove a member, it does so for a session of the owner of that
/// group, and the member is the user that the store just found.
pub proof fn law_only_the_owner_changes_members(state: Member, answer: Option<Answer>, now: i64)
    requires
        member_step(state, answer, now).1 matches Some(query) && (query is AddMemberToGroup
            || query is RemoveMemberFromGroup),
    ensures
        state matches Member::FindingUser { session, group, remove } && may_manage(
            session@.user,
            group@,
        ) && (answer matches Some(Answer::User(Some(user))) && member_step(state, answer, now).1
            == Some(
            if remove {
                Query::RemoveMemberFromGroup { group: group.id, member: user.id }
            } else {
                Query::AddMemberToGroup { group: group.id, member: user.id }
            },
        )),
{
    match state {
        Member::Verifying { check, group, user, remove } => {
            assert(verify_step(check, answer, now).1 matches Some(query) ==> query is GetSession
                || query is RemoveSession);
        },
        _ => {},
    }
}

/// The owner is never taken out: no step asks the store to remove the
/// owner of the group from its members.
pub proof fn law_the_owner_is_never_removed(state: Member, answer: Option<Answer>, now: i64)
    requires
        member_step(state, answer, now).1 matches Some(Query::RemoveMemberFromGroup { .. }),
    ensures
        state matches Member::FindingUser { group, .. } && (member_step(state, answer, now).1
            matches Some(Query::RemoveMemberFromGroup { member, .. }) && member@ != group@.owner),
{
    law_only_the_owner_changes_members(state, answer, now);
}

/// The changes that are asked for spare the owner: if the group that a
/// step holds is the store's, with the owner that the store has for it,
/// then whatever the step asks of the store leaves every owner a member.
pub proof fn law_changes_spare_the_owner(
    before: Store,
    state: Member,
    answer: Option<Answer>,
    now: i64,
)
    requires
        state matches Member::FindingUser { group, .. } ==> before.groups.contains_key(group@.id)
            && before.groups[group@.id].owner == group@.owner,
    ensures
        member_step(state, answer, now).1 matches Some(query) ==> spares_owners(before, query),
{
    match state {
        Member::Verifying { check, group, user, remove } => {
            assert(verify_step(check, answer, now).1 matches Some(query) ==> query is GetSession
                || query is RemoveSession);
        },
        _ => {},
    }
}

/// How many steps a request for the groups of the user is from its end, at
/// most.
pub open spec fn get_steps_left(state: Get) -> nat {
    match state {
        Get::Verifying { check, .. } => 2 + verify_steps_left(check),
        Get::Listing => 1,
        Get::Done(_) => 0,
    }
}

/// A request for the groups of the user comes to an end: every step brings
/// it closer, it asks nothing of the store exactly when it is over, and
/// then it stays as it is.
pub proof fn law_get_ends(state: Get, answer: Option<Answer>, now: i64, listing: Vec<GroupInfo>)
    ensures
        get_step(state, answer, now, listing).1 is None <==> get_step(
            state,
            answer,
            now,
            listing,
        ).0 is Done,
        state is Done ==> get_step(state, answer, now, listing).0 == state,
        !(state is Done) ==> get_steps_left(get_step(state, answer, now, listing).0)
            < get_steps_left(state),
{
}

/// How many steps the founding of a group is from its end, at most.
pub open spec fn create_steps_left(state: Create) -> nat {
    match state {
        Create::Verifying { check, .. } => 2 + verify_steps_left(check),
        Create::Founding => 1,
        Create::Done(_) => 0,
    }
}

/// The founding of a group comes to an end: every step brings it closer, it
/// asks nothing of the store exactly when it is over, and then it stays as
/// it is.
pub proof fn law_create_ends(
    state: Create,
    answer: Option<Answer>,
    now: i64,
    members: Vec<String>,
)
    ensures
        create_step(state, answer, now, members).1 is None <==> create_step(
            state,
            answer,
            now,
            members,
        ).0 is Done,
        state is Done ==> create_step(state, answer, now, members).0 == state,
        !(state is Done) ==> create_steps_left(create_step(state, answer, now, members).0)
            < create_steps_left(state),
{
}

/// How many steps a change of the members of a group is from its end, at
/// most.
pub open spec fn member_steps_left(state: Member) -> nat {
    match state {
        Member::Verifying { check, .. } => 4 + verify_steps_left(check),
        Member::FindingGroup { .. } => 3,
        Member::FindingUser { .. } => 2,
        Member::Changing => 1,
        Member::Done(_) => 0,
    }
}

/// A change of the members of a group comes to an end: every step brings it
/// closer, it asks nothing of the store exactly when it is over, and then
/// it stays as it is.
pub proof fn law_member_ends(state: Member, answer: Option<Answer>, now: i64)
    ensures
        member_step(state, answer, now).1 is None <==> member_step(state, answer, now).0 is Done,
        state is Done ==> member_step(state, answer, now).0 == state,
        !(state is Done) ==> member_steps_left(member_step(state, answer, now).0)
            < member_steps_left(state),
{
}

} // verus!
