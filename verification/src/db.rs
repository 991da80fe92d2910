//! The records of the data store, the requests it takes and the answers it
//! gives.
//!
//! The store itself lives outside this crate. Here it is a value of
//! [`Query`] handed out and a value of [`Answer`] taken back, and, for
//! proofs, a mathematical model of what it holds ([`Store`]) with the
//! contract that relates a query to its answer ([`answers`]).

use vstd::prelude::*;

verus! {

/// A user to be registered.
#[derive(Clone, Debug, PartialEq, Eq)]
pub struct CreateUser {
    pub email: String,
    pub password: String,
}

/// A registered user. `password` holds the password's hash.
#[derive(Clone, Debug, PartialEq, Eq)]
pub struct User {
    pub id: String,
    pub email: String,
    pub password: String,
}

/// A session to be stored.
#[derive(Clone, Debug, PartialEq, Eq)]
pub struct CreateSession {
    pub user: String,
    pub created: i64,
}

/// A stored session. `id` is the bearer token, `created` a time in
/// milliseconds since the Unix epoch.
#[derive(Clone, Debug, PartialEq, Eq)]
pub struct Session {
    pub id: String,
    pub user: String,
    pub created: i64,
}

/// A group to be stored.
#[derive(Clone, Debug, PartialEq, Eq)]
pub struct CreateGroup {
    pub owner: String,
    pub name: String,
    pub members: Vec<String>,
    pub created: i64,
}

/// A stored group.
#[derive(Clone, Debug, PartialEq, Eq)]
pub struct Group {
    pub id: String,
    pub owner: String,
    pub name: String,
    pub members: Vec<String>,
    pub created: i64,
}

/// A message to be stored.
#[derive(Clone, Debug, PartialEq, Eq)]
pub struct CreateMessage {
    pub group: String,
    pub author: String,
    pub text: String,
    pub created: i64,
}

/// A stored message.
#[derive(Clone, Debug, PartialEq, Eq)]
pub struct Message {
    pub id: String,
    pub group: String,
    pub author: String,
    pub text: String,
    pub created: i64,
}

/// The set of ids that a list of members holds.
pub open spec fn id_set(ids: Seq<String>) -> Set<Seq<char>> {
    Set::new(|id: Seq<char>| exists|i: int| 0 <= i < ids.len() && #[trigger] ids[i]@ == id)
}

/// A user to be registered, as a value.
pub struct CreateUserView {
    pub email: Seq<char>,
    pub password: Seq<char>,
}

/// A registered user, as a value.
pub struct UserView {
    pub id: Seq<char>,
    pub email: Seq<char>,
    pub password: Seq<char>,
}

/// A session to be stored, as a value.
pub struct CreateSessionView {
    pub user: Seq<char>,
    pub created: int,
}

/// A stored session, as a value.
pub struct SessionView {
    pub id: Seq<char>,
    pub user: Seq<char>,
    pub created: int,
}

/// A group to be stored, as a value: its members are a set.
pub struct CreateGroupView {
    pub owner: Seq<char>,
    pub name: Seq<char>,
    pub members: Set<Seq<char>>,
    pub created: int,
}

/// A stored group, as a value: its members are a set.
pub struct GroupView {
    pub id: Seq<char>,
    pub owner: Seq<char>,
    pub name: Seq<char>,
    pub members: Set<Seq<char>>,
    pub created: int,
}

/// A message to be stored, as a value.
pub struct CreateMessageView {
    pub group: Seq<char>,
    pub author: Seq<char>,
    pub text: Seq<char>,
    pub created: int,
}

/// A stored message, as a value.
pub struct MessageView {
    pub id: Seq<char>,
    pub group: Seq<char>,
    pub author: Seq<char>,
    pub text: Seq<char>,
    pub created: int,
}

impl View for CreateUser {
    type V = CreateUserView;

    open spec fn view(&self) -> CreateUserView {
        CreateUserView { email: self.email@, password: self.password@ }
    }
}

impl View for User {
    type V = UserView;

    open spec fn view(&self) -> UserView {
        UserView { id: self.id@, email: self.email@, password: self.password@ }
    }
}

impl View for CreateSession {
    type V = CreateSessionView;

    open spec fn view(&self) -> CreateSessionView {
        CreateSessionView { user: self.user@, created: self.created as int }
    }
}

impl View for Session {
    type V = SessionView;

    open spec fn view(&self) -> SessionView {
        SessionView { id: self.id@, user: self.user@, created: self.created as int }
    }
}

impl View for CreateGroup {
    type V = CreateGroupView;

    open spec fn view(&self) -> CreateGroupView {
        CreateGroupView {
            owner: self.owner@,
            name: self.name@,
            members: id_set(self.members@),
            created: self.created as int,
        }
    }
}

impl View for Group {
    type V = GroupView;

    open spec fn view(&self) -> GroupView {
        GroupView {
            id: self.id@,
            owner: self.owner@,
            name: self.name@,
            members: id_set(self.members@),
            created: self.created as int,
        }
    }
}

impl View for CreateMessage {
    type V = CreateMessageView;

    open spec fn view(&self) -> CreateMessageView {
        CreateMessageView {
            group: self.group@,
            author: self.author@,
            text: self.text@,
            created: self.created as int,
        }
    }
}

impl View for Message {
    type V = MessageView;

    open spec fn view(&self) -> MessageView {
        MessageView {
            id: self.id@,
            group: self.group@,
            author: self.author@,
            text: self.text@,
            created: self.created as int,
        }
    }
}

/// A request to the data store.
#[allow(inconsistent_fields)]
#[derive(Clone, Debug, PartialEq, Eq)]
pub enum Query {
    /// The user with this id.
    GetUser { id: String },
    /// The user with this email address.
    GetUserByEmail { email: String },
    /// Store a new user under `id`.
    CreateUser { id: String, user: CreateUser },
    /// The session with this token.
    GetSession { id: String },
    /// Store a new session under the token `id`.
    CreateSession { id: String, session: CreateSession },
    /// Delete the session with this token, if there is one.
    RemoveSession { id: String },
    /// The group with this id.
    GetGroup { id: String },
    /// `count` of the groups that `member` belongs to, after the first
    /// `offset`.
    GetGroupsByMember { member: String, offset: u64, count: u64 },
    /// Store a new group under an id that the store picks.
    CreateGroup { group: CreateGroup },
    /// Add `member` to the members of `group`.
    AddMemberToGroup { group: String, member: String },
    /// Take `member` out of the members of `group`.
    RemoveMemberFromGroup { group: String, member: String },
    /// `count` of the messages of `group`, newest first, after the first
    /// `offset`.
    GetMessages { group: String, count: u64, offset: u64 },
    /// Store a new message under an id that the store picks.
    CreateMessage { message: CreateMessage },
}

/// What the data store answered.
#[derive(Clone, Debug, PartialEq, Eq)]
pub enum Answer {
    /// One user, or none.
    User(Option<User>),
    /// One session, or none.
    Session(Option<Session>),
    /// One group, or none.
    Group(Option<Group>),
    /// A page of groups.
    Groups(Vec<Group>),
    /// One message, or none.
    Message(Option<Message>),
    /// A page of messages.
    Messages(Vec<Message>),
    /// The store failed. The cause stays with whoever ran the query.
    Failed,
}

} // verus!
