//! The persisted user and its mathematical view.

use vstd::prelude::*;

verus! {

/// A user as the store holds it.
///
/// `id` is the 128-bit value of the user's UUID. The three instants are
/// microseconds since the Unix epoch, in UTC. `password` holds the digest of
/// the credential, never the credential.
#[derive(Debug)]
pub struct User {
    pub id: u128,
    pub first_name: String,
    pub last_name: String,
    pub email: String,
    pub password: String,
    pub created_at: i64,
    pub updated_at: i64,
    pub deleted_at: Option<i64>,
}

/// What a [`User`] is to the contracts: its fields, the strings as sequences
/// of characters.
pub struct UserView {
    pub id: u128,
    pub first_name: Seq<char>,
    pub last_name: Seq<char>,
    pub email: Seq<char>,
    pub password: Seq<char>,
    pub created_at: i64,
    pub updated_at: i64,
    pub deleted_at: Option<i64>,
}

impl UserView {
    /// The user has not been soft-deleted.
    pub open spec fn active(self) -> bool {
        self.deleted_at is None
    }

    /// The order of the three instants: created, then updated, then deleted.
    pub open spec fn wf(self) -> bool {
        &&& self.created_at <= self.updated_at
        &&& self.deleted_at matches Some(at) ==> self.updated_at <= at
    }
}

impl View for User {
    type V = UserView;

    open spec fn view(&self) -> UserView {
        UserView {
            id: self.id,
            first_name: self.first_name@,
            last_name: self.last_name@,
            email: self.email@,
            password: self.password@,
            created_at: self.created_at,
            updated_at: self.updated_at,
            deleted_at: self.deleted_at,
        }
    }
}

impl User {
    /// The order of the three instants holds of this user.
    pub open spec fn wf(&self) -> bool {
        self@.wf()
    }

    /// Whether the user has not been soft-deleted.
    pub fn is_active(&self) -> (res: bool)
        ensures
            res == self@.active(),
    {
        self.deleted_at.is_none()
    }

    /// A copy of the user, field by field.
    pub fn duplicate(&self) -> (res: User)
        ensures
            res@ == self@,
    {
        User {
            id: self.id,
            first_name: self.first_name.clone(),
            last_name: self.last_name.clone(),
            email: self.email.clone(),
            password: self.password.clone(),
            created_at: self.created_at,
            updated_at: self.updated_at,
            deleted_at: self.deleted_at,
        }
    }
}

} // verus!
