//! The persistence boundary: what the registration flow asks of a user store,
//! and the invariants of a store.

use vstd::prelude::*;
use crate::domain::entity::user::{User, UserView};

verus! {

/// Why a repository refused an operation.
#[derive(Debug, Clone, Copy, PartialEq, Eq, Structural)]
pub enum RepositoryError {
    /// The store's own uniqueness constraint rejected the row.
    ConstraintViolation,
    /// The store could not be reached.
    Unavailable,
}

/// Some row of `rows` is an active user with this email. Emails are compared
/// exactly, character by character.
pub open spec fn holds_active(rows: Seq<UserView>, email: Seq<char>) -> bool {
    exists|i: int| 0 <= i < rows.len() && is_active_with(#[trigger] rows[i], email)
}

/// `row` is an active user with this email.
pub open spec fn is_active_with(row: UserView, email: Seq<char>) -> bool {
    row.active() && row.email == email
}

/// Some row of `rows` has this identifier.
pub open spec fn holds_id(rows: Seq<UserView>, id: u128) -> bool {
    exists|i: int| 0 <= i < rows.len() && (#[trigger] rows[i]).id == id
}

/// Adding `user` to `rows` would reuse an identifier, or give two active
/// users one email.
pub open spec fn conflicts(rows: Seq<UserView>, user: UserView) -> bool {
    holds_id(rows, user.id) || (user.active() && holds_active(rows, user.email))
}

/// How many rows of `rows` are active users with this email.
pub open spec fn active_count(rows: Seq<UserView>, email: Seq<char>) -> nat
    decreases rows.len(),
{
    if rows.len() == 0 {
        0
    } else {
        active_count(rows.drop_last(), email) + if is_active_with(rows.last(), email) {
            1nat
        } else {
            0nat
        }
    }
}

/// `row` after the soft deletion, at instant `at`, of the active users with
/// this email: such a row is deleted at `at`, or at its last update if that is
/// later, and any other row is as it was.
pub open spec fn retired(row: UserView, email: Seq<char>, at: i64) -> UserView {
    if is_active_with(row, email) {
        UserView {
            deleted_at: Some(
                if at >= row.updated_at {
                    at
                } else {
                    row.updated_at
                },
            ),
            ..row
        }
    } else {
        row
    }
}

/// The invariants of a store: every row keeps its instants in order, no
/// identifier occurs twice, and no two active rows share an email.
pub open spec fn store_wf(rows: Seq<UserView>) -> bool {
    &&& forall|i: int| 0 <= i < rows.len() ==> (#[trigger] rows[i]).wf()
    &&& forall|i: int, j: int|
        0 <= i < j < rows.len() ==> (#[trigger] rows[i]).id != (#[trigger] rows[j]).id
    &&& forall|i: int, j: int|
        0 <= i < j < rows.len() && (#[trigger] rows[i]).active() && (#[trigger] rows[j]).active()
            ==> rows[i].email != rows[j].email
}

/// A store of users, whatever backs it.
///
/// What a store answers is all that can be said of one that lives elsewhere
/// and has other writers. A store that is its own handle says more: it sets
/// `owns_rows`, and `rows` is then all it holds.
pub trait UserRepository {
    /// Every row of the store, soft-deleted users included, in the order in
    /// which the rows were written. It means something only under
    /// `owns_rows`.
    open spec fn rows(&self) -> Seq<UserView> {
        Seq::empty()
    }

    /// This handle is the store: `rows` is all that the store holds, nothing
    /// else writes to it, and it can always be reached. Unless an
    /// implementation says so, it is not.
    open spec fn owns_rows(&self) -> bool {
        false
    }

    /// Writes `user` as one new row and hands the stored row back. The store
    /// enforces its own uniqueness constraint, and a refusal leaves it as it
    /// was. A store that owns its rows refuses exactly the rows that conflict
    /// with one it holds.
    fn create(&mut self, user: User) -> (res: Result<User, RepositoryError>)
        ensures
            res matches Ok(stored) ==> stored@ == user@,
            final(self).owns_rows() == old(self).owns_rows(),
            old(self).owns_rows() ==> match res {
                Ok(_) => {
                    &&& !conflicts(old(self).rows(), user@)
                    &&& final(self).rows() == old(self).rows().push(user@)
                },
                Err(e) => {
                    &&& conflicts(old(self).rows(), user@)
                    &&& final(self).rows() == old(self).rows()
                    &&& e == RepositoryError::ConstraintViolation
                },
            },
    ;

    /// Looks up the active user with this email. A soft-deleted row is never
    /// returned, and that no row matches is no failure: the one failure is
    /// that the store cannot be reached.
    fn find_by_email(&mut self, email: &str) -> (res: Result<Option<User>, RepositoryError>)
        ensures
            res matches Ok(Some(user)) ==> is_active_with(user@, email@),
            res matches Err(e) ==> e == RepositoryError::Unavailable,
            final(self).owns_rows() == old(self).owns_rows(),
            old(self).owns_rows() ==> {
                &&& final(self).rows() == old(self).rows()
                &&& match res {
                    Ok(Some(user)) => old(self).rows().contains(user@),
                    Ok(None) => !holds_active(old(self).rows(), email@),
                    Err(_) => false,
                }
            },
    ;
}

/// A row that conflicts with none and keeps its instants in order may join a
/// store without harm to its invariants.
pub proof fn law_accepted_row_keeps_invariants(rows: Seq<UserView>, row: UserView)
    requires
        store_wf(rows),
        row.wf(),
        !conflicts(rows, row),
    ensures
        store_wf(rows.push(row)),
{
    let after = rows.push(row);
    assert forall|i: int, j: int| 0 <= i < j < after.len() implies (#[trigger] after[i]).id != (
    #[trigger] after[j]).id by {
        if j == rows.len() {
            assert(after[i] == rows[i]);
        }
    }
    assert forall|i: int, j: int|
        0 <= i < j < after.len() && (#[trigger] after[i]).active() && (
        #[trigger] after[j]).active() implies after[i].email != after[j].email by {
        if j == rows.len() {
            assert(after[i] == rows[i]);
            if after[i].email == row.email {
                assert(is_active_with(rows[i], row.email));
            }
        }
    }
}

/// Soft deletion frees the email and keeps the invariants of the store.
pub proof fn law_soft_deletion_frees_email(rows: Seq<UserView>, email: Seq<char>, at: i64)
    ensures
        !holds_active(rows.map_values(|row: UserView| retired(row, email, at)), email),
        store_wf(rows) ==> store_wf(rows.map_values(|row: UserView| retired(row, email, at))),
{
    let after = rows.map_values(|row: UserView| retired(row, email, at));
    assert forall|i: int| 0 <= i < after.len() implies !is_active_with(
        #[trigger] after[i],
        email,
    ) by {
        assert(after[i] == retired(rows[i], email, at));
    }
    if store_wf(rows) {
        assert forall|i: int| 0 <= i < after.len() implies (#[trigger] after[i]).wf() by {
            assert(after[i] == retired(rows[i], email, at));
            assert(rows[i].wf());
        }
        assert forall|i: int, j: int| 0 <= i < j < after.len() implies (#[trigger] after[i]).id != (
        #[trigger] after[j]).id by {
            assert(after[i] == retired(rows[i], email, at));
            assert(after[j] == retired(rows[j], email, at));
            assert(rows[i].id != rows[j].id);
        }
        assert forall|i: int, j: int|
            0 <= i < j < after.len() && (#[trigger] after[i]).active() && (
            #[trigger] after[j]).active() implies after[i].email != after[j].email by {
            assert(after[i] == retired(rows[i], email, at));
            assert(after[j] == retired(rows[j], email, at));
            assert(rows[i].active() && rows[j].active());
        }
    }
}

} // verus!
