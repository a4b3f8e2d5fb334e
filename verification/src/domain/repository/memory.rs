//! A user store held in memory. It owns its rows: it enforces the uniqueness
//! constraint itself, and it never fails for another reason.

use vstd::prelude::*;
use crate::domain::entity::user::{User, UserView};
use crate::domain::repository::user::{
    active_count, conflicts, holds_active, holds_id, is_active_with, retired, RepositoryError,
    UserRepository,
};

verus! {

/// The rows of a store, oldest first.
pub struct InMemoryUserRepository {
    users: Vec<User>,
}

/// The views of `users`, in order.
pub open spec fn views_of(users: Seq<User>) -> Seq<UserView> {
    users.map_values(|u: User| u@)
}

impl InMemoryUserRepository {
    /// An empty store.
    pub fn new() -> (res: Self)
        ensures
            res.rows() == Seq::<UserView>::empty(),
    {
        let res = InMemoryUserRepository { users: Vec::new() };
        assert(views_of(res.users@) =~= Seq::<UserView>::empty());
        res
    }

    /// The number of rows, soft-deleted users included.
    pub fn len(&self) -> (res: usize)
        ensures
            res == self.rows().len(),
    {
        self.users.len()
    }

    /// The number of active users with this email.
    pub fn count_active(&self, email: &str) -> (res: usize)
        ensures
            res == active_count(self.rows(), email@),
    {
        let wanted = email.to_owned();
        let ghost rows = self.rows();
        let mut count: usize = 0;
        let mut i: usize = 0;
        assert(rows.take(0) =~= Seq::<UserView>::empty());
        while i < self.users.len()
            invariant
                i <= self.users.len(),
                rows == views_of(self.users@),
                wanted@ == email@,
                count <= i,
                count == active_count(rows.take(i as int), email@),
            decreases self.users.len() - i,
        {
            assert(rows.take(i + 1).drop_last() =~= rows.take(i as int));
            assert(rows.take(i + 1).last() == self.users@[i as int]@);
            if self.users[i].deleted_at.is_none() && self.users[i].email == wanted {
                count = count + 1;
            }
            i = i + 1;
        }
        assert(rows.take(i as int) =~= rows);
        count
    }

    /// Soft-deletes the active users with this email at instant `at`, or at
    /// their last update if that is later, and says whether there was one.
    pub fn soft_delete(&mut self, email: &str, at: i64) -> (res: bool)
        ensures
            res == holds_active(old(self).rows(), email@),
            final(self).rows() == old(self).rows().map_values(
                |row: UserView| retired(row, email@, at),
            ),
    {
        let wanted = email.to_owned();
        let ghost before = self.rows();
        let mut kept: Vec<User> = Vec::new();
        let mut any = false;
        let mut i: usize = 0;
        while i < self.users.len()
            invariant
                i <= self.users.len(),
                before == views_of(self.users@),
                wanted@ == email@,
                kept@.len() == i,
                forall|k: int| 0 <= k < i ==> (#[trigger] kept@[k])@ == retired(before[k], email@, at),
                any <==> exists|k: int| 0 <= k < i && is_active_with(#[trigger] before[k], email@),
            decreases self.users.len() - i,
        {
            let mut row = self.users[i].duplicate();
            if row.deleted_at.is_none() && row.email == wanted {
                row.deleted_at = Some(if at >= row.updated_at { at } else { row.updated_at });
                any = true;
            }
            assert(row@ == retired(before[i as int], email@, at));
            assert(before[i as int] == self.users@[i as int]@);
            kept.push(row);
            i = i + 1;
        }
        self.users = kept;
        assert(views_of(self.users@) =~= before.map_values(
            |row: UserView| retired(row, email@, at),
        ));
        any
    }

    /// Whether some row has this identifier.
    fn has_id(&self, id: u128) -> (res: bool)
        ensures
            res == holds_id(self.rows(), id),
    {
        let mut i: usize = 0;
        while i < self.users.len()
            invariant
                i <= self.users.len(),
                forall|k: int| 0 <= k < i ==> (#[trigger] self.rows()[k]).id != id,
            decreases self.users.len() - i,
        {
            if self.users[i].id == id {
                assert(self.rows()[i as int].id == id);
                return true;
            }
            i = i + 1;
        }
        false
    }

    /// The index of the first active user with this email.
    fn position_active(&self, email: &str) -> (res: Option<usize>)
        ensures
            match res {
                Some(i) => i < self.rows().len() && is_active_with(self.rows()[i as int], email@),
                None => !holds_active(self.rows(), email@),
            },
    {
        let wanted = email.to_owned();
        let mut i: usize = 0;
        while i < self.users.len()
            invariant
                i <= self.users.len(),
                wanted@ == email@,
                forall|k: int| 0 <= k < i ==> !is_active_with(#[trigger] self.rows()[k], email@),
            decreases self.users.len() - i,
        {
            if self.users[i].deleted_at.is_none() && self.users[i].email == wanted {
                assert(is_active_with(self.rows()[i as int], email@));
                return Some(i);
            }
            assert(!is_active_with(self.rows()[i as int], email@));
            i = i + 1;
        }
        None
    }
}

impl UserRepository for InMemoryUserRepository {
    closed spec fn rows(&self) -> Seq<UserView> {
        views_of(self.users@)
    }

    open spec fn owns_rows(&self) -> bool {
        true
    }

    /// Refuses `user` with `ConstraintViolation` exactly when it conflicts
    /// with a row of the store, and stores it otherwise.
    fn create(&mut self, user: User) -> (res: Result<User, RepositoryError>) {
        if self.has_id(user.id) {
            return Err(RepositoryError::ConstraintViolation);
        }
        if user.deleted_at.is_none() {
            if self.position_active(user.email.as_str()).is_some() {
                return Err(RepositoryError::ConstraintViolation);
            }
        }
        let stored = user.duplicate();
        self.users.push(user);
        assert(views_of(self.users@) =~= views_of(old(self).users@).push(user@));
        Ok(stored)
    }

    /// Never fails: returns the first active user with this email, if any.
    fn find_by_email(&mut self, email: &str) -> (res: Result<Option<User>, RepositoryError>) {
        match self.position_active(email) {
            Some(i) => {
                let found = self.users[i].duplicate();
                assert(self.rows()[i as int] == found@);
                Ok(Some(found))
            },
            None => Ok(None),
        }
    }
}

} // verus!
