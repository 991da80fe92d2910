//! A model of the data store: what it holds, and which answer it may give
//! to which query.
//!
//! The model is mathematics only. It states what this crate expects of the
//! store, so that what the operations achieve against such a store can be
//! proved. Every operation of the store reads or writes one record; a query
//! that fails has either left the store as it was or done its work without
//! being able to say so.

use crate::db::{
    Answer, Group, GroupView, Message, MessageView, Query, Session, SessionView, User, UserView,
};
use crate::gate::{with_member, without_member};
use vstd::prelude::*;

verus! {

/// What the store holds, each table keyed by the record's id.
pub struct Store {
    pub users: Map<Seq<char>, UserView>,
    pub sessions: Map<Seq<char>, SessionView>,
    pub groups: Map<Seq<char>, GroupView>,
    pub messages: Map<Seq<char>, MessageView>,
}

impl Store {
    /// Every record is filed under its own id.
    pub open spec fn well_formed(self) -> bool {
        &&& forall|id: Seq<char>| #[trigger]
            self.users.contains_key(id) ==> self.users[id].id == id
        &&& forall|id: Seq<char>| #[trigger]
            self.sessions.contains_key(id) ==> self.sessions[id].id == id
        &&& forall|id: Seq<char>| #[trigger]
            self.groups.contains_key(id) ==> self.groups[id].id == id
        &&& forall|id: Seq<char>| #[trigger]
            self.messages.contains_key(id) ==> self.messages[id].id == id
    }

    /// Whether some user has this email address.
    pub open spec fn email_taken(self, email: Seq<char>) -> bool {
        exists|id: Seq<char>| #[trigger] self.users.contains_key(id) && self.users[id].email == email
    }

    /// Every group counts its owner among its members.
    pub open spec fn owners_are_members(self) -> bool {
        forall|id: Seq<char>| #[trigger]
            self.groups.contains_key(id) ==> self.groups[id].members.contains(
                self.groups[id].owner,
            )
    }
}

/// The answer to a lookup by id: the record filed under the id, or none.
pub open spec fn found<V>(table: Map<Seq<char>, V>, id: Seq<char>, hit: Option<V>) -> bool {
    match hit {
        Some(record) => table.contains_key(id) && table[id] == record,
        None => !table.contains_key(id),
    }
}

/// The view of the user that an answer carries, if it carries one.
pub open spec fn user_view(hit: Option<User>) -> Option<UserView> {
    match hit {
        Some(user) => Some(user@),
        None => None,
    }
}

/// The view of the session that an answer carries, if it carries one.
pub open spec fn session_view(hit: Option<Session>) -> Option<SessionView> {
    match hit {
        Some(session) => Some(session@),
        None => None,
    }
}

/// The view of the group that an answer carries, if it carries one.
pub open spec fn group_view(hit: Option<Group>) -> Option<GroupView> {
    match hit {
        Some(group) => Some(group@),
        None => None,
    }
}

/// A page of messages is in order when no message comes before a newer one.
pub open spec fn newest_first(page: Seq<Message>) -> bool {
    forall|i: int, j: int|
        0 <= i <= j < page.len() ==> (#[trigger] page[i])@.created >= (#[trigger] page[j])@.created
}

/// `answer` is what the store gives when it carries out `query`, and
/// `after` is what it holds then.
pub open spec fn carried_out(before: Store, query: Query, answer: Answer, after: Store) -> bool {
    match query {
        Query::GetUser { id } => {
            &&& after == before
            &&& answer matches Answer::User(hit)
            &&& found(before.users, id@, user_view(hit))
        },
        Query::GetUserByEmail { email } => {
            &&& after == before
            &&& answer matches Answer::User(hit)
            &&& match hit {
                Some(user) => {
                    &&& before.users.contains_key(user@.id)
                    &&& before.users[user@.id] == user@
                    &&& user@.email == email@
                },
                None => !before.email_taken(email@),
            }
        },
        Query::CreateUser { id, user } => {
            &&& answer matches Answer::User(hit)
            &&& match hit {
                Some(made) => {
                    &&& !before.users.contains_key(id@)
                    &&& made@ == UserView { id: id@, email: user@.email, password: user@.password }
                    &&& after == Store { users: before.users.insert(id@, made@), ..before }
                },
                None => after == before,
            }
        },
        Query::GetSession { id } => {
            &&& after == before
            &&& answer matches Answer::Session(hit)
            &&& found(before.sessions, id@, session_view(hit))
        },
        Query::CreateSession { id, session } => {
            &&& answer matches Answer::Session(hit)
            &&& match hit {
                Some(made) => {
                    &&& !before.sessions.contains_key(id@)
                    &&& made@ == SessionView {
                        id: id@,
                        user: session@.user,
                        created: session@.created,
                    }
                    &&& after == Store { sessions: before.sessions.insert(id@, made@), ..before }
                },
                None => after == before,
            }
        },
        Query::RemoveSession { id } => {
            &&& answer matches Answer::Session(hit)
            &&& found(before.sessions, id@, session_view(hit))
            &&& after == Store { sessions: before.sessions.remove(id@), ..before }
        },
        Query::GetGroup { id } => {
            &&& after == before
            &&& answer matches Answer::Group(hit)
            &&& found(before.groups, id@, group_view(hit))
        },
        Query::GetGroupsByMember { member, offset, count } => {
            &&& after == before
            &&& answer matches Answer::Groups(page)
            &&& page@.len() <= count
            &&& forall|i: int|
                0 <= i < page@.len() ==> {
                    &&& before.groups.contains_key((#[trigger] page@[i])@.id)
                    &&& before.groups[page@[i]@.id] == page@[i]@
                    &&& page@[i]@.members.contains(member@)
                }
        },
        Query::CreateGroup { group } => {
            &&& answer matches Answer::Group(hit)
            &&& match hit {
                Some(made) => {
                    &&& !before.groups.contains_key(made@.id)
                    &&& made@ == GroupView {
                        id: made@.id,
                        owner: group@.owner,
                        name: group@.name,
                        members: group@.members,
                        created: group@.created,
                    }
                    &&& after == Store { groups: before.groups.insert(made@.id, made@), ..before }
                },
                None => after == before,
            }
        },
        Query::AddMemberToGroup { group, member } => {
            &&& answer matches Answer::Group(hit)
            &&& match hit {
                Some(changed) => {
                    &&& before.groups.contains_key(group@)
                    &&& changed@ == with_member(before.groups[group@], member@)
                    &&& after == Store { groups: before.groups.insert(group@, changed@), ..before }
                },
                None => !before.groups.contains_key(group@) && after == before,
            }
        },
        Query::RemoveMemberFromGroup { group, member } => {
            &&& answer matches Answer::Group(hit)
            &&& match hit {
                Some(changed) => {
                    &&& before.groups.contains_key(group@)
                    &&& changed@ == without_member(before.groups[group@], member@)
                    &&& after == Store { groups: before.groups.insert(group@, changed@), ..before }
                },
                None => !before.groups.contains_key(group@) && after == before,
            }
        },
        Query::GetMessages { group, count, offset } => {
            &&& after == before
            &&& answer matches Answer::Messages(page)
            &&& page@.len() <= count
            &&& newest_first(page@)
            &&& forall|i: int|
                0 <= i < page@.len() ==> {
                    &&& before.messages.contains_key((#[trigger] page@[i])@.id)
                    &&& before.messages[page@[i]@.id] == page@[i]@
                    &&& page@[i]@.group == group@
                }
        },
        Query::CreateMessage { message } => {
            &&& answer matches Answer::Message(hit)
            &&& match hit {
                Some(made) => {
                    &&& !before.messages.contains_key(made@.id)
                    &&& made@ == MessageView {
                        id: made@.id,
                        group: message@.group,
                        author: message@.author,
                        text: message@.text,
                        created: message@.created,
                    }
                    &&& after == Store {
                        messages: before.messages.insert(made@.id, made@),
                        ..before
                    }
                },
                None => after == before,
            }
        },
    }
}

/// The contract of the store: `answer` is one that the store may give to
/// `query` when it holds `before`, and `after` is what it may hold then.
///
/// Either the query is carried out and answered, or the store reports a
/// failure; then it is as before, or as if the query had been carried out.
pub open spec fn answers(before: Store, query: Query, answer: Answer, after: Store) -> bool {
    if answer is Failed {
        after == before || exists|unheard: Answer| #[trigger]
            carried_out(before, query, unheard, after)
    } else {
        carried_out(before, query, answer, after)
    }
}

/// Whether `query` leaves the owner of every group among its members: a
/// group is founded with its owner as a member, and no owner is taken out.
pub open spec fn spares_owners(before: Store, query: Query) -> bool {
    match query {
        Query::CreateGroup { group } => group@.members.contains(group@.owner),
        Query::RemoveMemberFromGroup { group, member } => before.groups.contains_key(group@)
            ==> member@ != before.groups[group@].owner,
        _ => true,
    }
}

/// A group keeps its owner: whatever the store is asked, a group that it
/// holds is still there afterwards, with the owner it had.
pub proof fn law_groups_keep_their_owner(
    before: Store,
    query: Query,
    answer: Answer,
    after: Store,
    id: Seq<char>,
)
    requires
        answers(before, query, answer, after),
        before.groups.contains_key(id),
    ensures
        after.groups.contains_key(id),
        after.groups[id].owner == before.groups[id].owner,
{
}

/// Owners stay members: if every group counts its owner among its members,
/// it still does after any query that spares the owners, answered or
/// failed.
pub proof fn law_owners_stay_members(before: Store, query: Query, answer: Answer, after: Store)
    requires
        before.owners_are_members(),
        spares_owners(before, query),
        answers(before, query, answer, after),
    ensures
        after.owners_are_members(),
{
    assert forall|id: Seq<char>| #[trigger] after.groups.contains_key(id) implies after.groups[id].members.contains(
        after.groups[id].owner,
    ) by {
        if before.groups.contains_key(id) {
            assert(before.groups[id].members.contains(before.groups[id].owner));
        }
    }
}

/// Sessions come and go by their own queries only: a query that neither
/// creates nor removes a session leaves the sessions as they were.
pub proof fn law_sessions_change_by_their_queries(
    before: Store,
    query: Query,
    answer: Answer,
    after: Store,
)
    requires
        answers(before, query, answer, after),
        !(query is CreateSession),
        !(query is RemoveSession),
    ensures
        after.sessions == before.sessions,
{
}

/// Records stay filed under their own ids: a store that is well formed is
/// well formed after any query, answered or failed.
pub proof fn law_store_stays_well_formed(
    before: Store,
    query: Query,
    answer: Answer,
    after: Store,
)
    requires
        before.well_formed(),
        answers(before, query, answer, after),
    ensures
        after.well_formed(),
{
}

} // verus!
