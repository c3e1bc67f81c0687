//! Records exchanged between the service and its store.

use vstd::prelude::*;

use crate::clock::local_now;

verus! {

/// A point on the server's local clock, with no time zone attached: the
/// whole seconds since the local date-time 1970-01-01 00:00:00, and the
/// nanoseconds within the second.
#[derive(Clone, Copy, Debug, PartialEq, Eq, Structural)]
pub struct Timestamp {
    pub secs: i64,
    pub nanos: u32,
}

impl Timestamp {
    /// Whether `self` is `other` or a later instant.
    pub open spec fn at_or_after(self, other: Timestamp) -> bool {
        self.secs > other.secs || (self.secs == other.secs && self.nanos >= other.nanos)
    }

    /// Decides `at_or_after`.
    pub fn is_at_or_after(&self, other: &Timestamp) -> (r: bool)
        ensures
            r == self.at_or_after(*other),
    {
        self.secs > other.secs || (self.secs == other.secs && self.nanos >= other.nanos)
    }
}

/// What a caller supplies to have a user created. Nothing in it is
/// validated, and it carries neither identifier nor creation time: the store
/// assigns the first, the server's clock the second.
#[derive(Debug, Clone, PartialEq, Eq)]
pub struct InputUser {
    pub first_name: String,
    pub last_name: String,
    pub email: String,
}

/// The three caller-supplied fields of a user, as sequences of characters.
pub struct InputUserView {
    pub first_name: Seq<char>,
    pub last_name: Seq<char>,
    pub email: Seq<char>,
}

impl View for InputUser {
    type V = InputUserView;

    open spec fn view(&self) -> InputUserView {
        InputUserView {
            first_name: self.first_name@,
            last_name: self.last_name@,
            email: self.email@,
        }
    }
}

/// A row about to be inserted: the caller's fields, borrowed, and the moment
/// of insertion.
#[derive(Debug, Clone, Copy, PartialEq, Eq)]
pub struct NewUser<'a> {
    pub first_name: &'a str,
    pub last_name: &'a str,
    pub email: &'a str,
    pub created_at: Timestamp,
}

/// A row about to be inserted, as mathematical values.
pub struct NewUserView {
    pub first_name: Seq<char>,
    pub last_name: Seq<char>,
    pub email: Seq<char>,
    pub created_at: Timestamp,
}

impl<'a> View for NewUser<'a> {
    type V = NewUserView;

    open spec fn view(&self) -> NewUserView {
        NewUserView {
            first_name: self.first_name@,
            last_name: self.last_name@,
            email: self.email@,
            created_at: self.created_at,
        }
    }
}

/// The row that stamping `input` at `now` yields.
pub open spec fn stamped(input: InputUserView, now: Timestamp) -> NewUserView {
    NewUserView {
        first_name: input.first_name,
        last_name: input.last_name,
        email: input.email,
        created_at: now,
    }
}

/// Stamps `input` with the clock reading `now`.
pub fn stamp<'a>(input: &'a InputUser, now: Timestamp) -> (row: NewUser<'a>)
    ensures
        row@ == stamped(input@, now),
{
    NewUser {
        first_name: input.first_name.as_str(),
        last_name: input.last_name.as_str(),
        email: input.email.as_str(),
        created_at: now,
    }
}

/// Stamps `input` with the server's local time at the moment of the call.
/// The three fields are the caller's; the creation time is whatever the clock
/// showed.
pub fn new_user<'a>(input: &'a InputUser) -> (row: NewUser<'a>)
    ensures
        row@ == stamped(input@, row.created_at),
{
    let now = local_now();
    stamp(input, now)
}

/// A stored user. The store assigns `id` on insertion; no two stored users
/// share one, and neither `id` nor `created_at` changes afterwards.
#[derive(Debug, Clone, PartialEq, Eq)]
pub struct User {
    pub id: i32,
    pub first_name: String,
    pub last_name: String,
    pub email: String,
    pub created_at: Timestamp,
}

/// A stored user, as mathematical values.
pub struct UserView {
    pub id: int,
    pub first_name: Seq<char>,
    pub last_name: Seq<char>,
    pub email: Seq<char>,
    pub created_at: Timestamp,
}

impl View for User {
    type V = UserView;

    open spec fn view(&self) -> UserView {
        UserView {
            id: self.id as int,
            first_name: self.first_name@,
            last_name: self.last_name@,
            email: self.email@,
            created_at: self.created_at,
        }
    }
}

impl User {
    /// A copy of this record.
    pub fn duplicate(&self) -> (copy: User)
        ensures
            copy@ == self@,
    {
        User {
            id: self.id,
            first_name: self.first_name.clone(),
            last_name: self.last_name.clone(),
            email: self.email.clone(),
            created_at: self.created_at,
        }
    }
}

/// The records of `users`, in order.
pub open spec fn rows_of(users: Seq<User>) -> Seq<UserView> {
    users.map_values(|u: User| u@)
}

/// The row `new_user` becomes once the store has assigned it `id`.
pub open spec fn stored(id: int, new_user: NewUserView) -> UserView {
    UserView {
        id,
        first_name: new_user.first_name,
        last_name: new_user.last_name,
        email: new_user.email,
        created_at: new_user.created_at,
    }
}

} // verus!
