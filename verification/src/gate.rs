//! Who may do what to a group.
//!
//! The predicates read a session and a group that the caller has fetched
//! already. They ask nothing of the store and cannot fail.

use crate::db::{id_set, Group, GroupView, Session};
use vstd::prelude::*;

verus! {

/// A user may view a group when the user is one of its members.
pub open spec fn may_view(user: Seq<char>, group: GroupView) -> bool {
    group.members.contains(user)
}

/// A user may change the members of a group when the user owns it.
pub open spec fn may_manage(user: Seq<char>, group: GroupView) -> bool {
    user == group.owner
}

/// A user may post to a group when the user may view it.
pub open spec fn may_post(user: Seq<char>, group: GroupView) -> bool {
    may_view(user, group)
}

/// The group as it is once `member` has been added.
pub open spec fn with_member(group: GroupView, member: Seq<char>) -> GroupView {
    GroupView { members: group.members.insert(member), ..group }
}

/// The group as it is once `member` has been taken out.
pub open spec fn without_member(group: GroupView, member: Seq<char>) -> GroupView {
    GroupView { members: group.members.remove(member), ..group }
}

/// Whether `id` is among `ids`.
pub fn contains_id(ids: &Vec<String>, id: &String) -> (found: bool)
    ensures
        found == id_set(ids@).contains(id@),
{
    let mut i: usize = 0;
    while i < ids.len()
        invariant
            i <= ids@.len(),
            forall|j: int| 0 <= j < i ==> (#[trigger] ids@[j])@ != id@,
        decreases ids@.len() - i,
    {
        if ids[i] == *id {
            return true;
        }
        i += 1;
    }
    false
}

/// Whether the session's user is a member of the group.
pub fn can_view_group(session: &Session, group: &Group) -> (allowed: bool)
    ensures
        allowed == may_view(session@.user, group@),
{
    contains_id(&group.members, &session.user)
}

/// Whether the session's user owns the group.
pub fn can_manage_members(session: &Session, group: &Group) -> (allowed: bool)
    ensures
        allowed == may_manage(session@.user, group@),
{
    session.user == group.owner
}

/// Whether the session's user may post to the group.
pub fn can_post_message(session: &Session, group: &Group) -> (allowed: bool)
    ensures
        allowed == may_post(session@.user, group@),
{
    can_view_group(session, group)
}

/// Viewing is membership: a member may view and post, and nobody else may.
pub proof fn law_view_is_membership(user: Seq<char>, group: GroupView)
    ensures
        may_view(user, group) <==> group.members.contains(user),
        may_post(user, group) <==> group.members.contains(user),
{
}

/// Only the owner manages: the one id for which `may_manage` holds is the
/// owner's, whoever else is a member.
pub proof fn law_only_owner_manages(user: Seq<char>, group: GroupView)
    ensures
        may_manage(user, group) <==> user == group.owner,
        user != group.owner && group.members.contains(user) ==> !may_manage(user, group),
{
}

/// Adding a member lets that member view and post. It makes nobody a
/// manager who was none, not the member just added either, and nobody loses
/// sight of the group.
pub proof fn law_adding_a_member(group: GroupView, added: Seq<char>, user: Seq<char>)
    ensures
        may_view(added, with_member(group, added)),
        may_post(added, with_member(group, added)),
        may_manage(user, with_member(group, added)) <==> may_manage(user, group),
        added != group.owner ==> !may_manage(added, with_member(group, added)),
        may_view(user, group) ==> may_view(user, with_member(group, added)),
        user != added ==> (may_view(user, with_member(group, added)) <==> may_view(user, group)),
{
}

/// Removing a member ends that member's view of the group and touches
/// nobody else's rights.
pub proof fn law_removing_a_member(group: GroupView, removed: Seq<char>, user: Seq<char>)
    ensures
        !may_view(removed, without_member(group, removed)),
        may_manage(user, without_member(group, removed)) <==> may_manage(user, group),
        user != removed ==> (may_view(user, without_member(group, removed)) <==> may_view(
            user,
            group,
        )),
{
}

} // verus!
