//! What holds of the registration flow on every store and every request.

use vstd::prelude::*;
use crate::config::RegistrationConfig;
use crate::domain::entity::user::UserView;
use crate::domain::repository::user::{
    active_count, conflicts, holds_active, is_active_with, law_accepted_row_keeps_invariants,
    store_wf,
};
use crate::usecase::auth::register::dto::RequestView;
use crate::usecase::auth::register::hasher::bcrypt_verdict;
use crate::usecase::auth::register::mapper::{
    echo_of, entity_of, is_uuid_v4, lemma_uuid_v4_not_nil, response_of,
};
use crate::usecase::auth::register::service::{flow, holds_random_id, RegisterEnd};
use crate::usecase::auth::register::validation::{
    confirmation_ok, first_name_ok, last_name_ok, password_ok, rendered, valid, violations_of,
    well_formed_email, listed_if, Violation,
};

verus! {

/// What one more rule adds to a list of violations: its violation if it is
/// broken, and nothing otherwise.
pub proof fn lemma_one_more_rule(listed: Seq<Violation>, broken: bool, violation: Violation)
    ensures
        (listed + listed_if(broken, violation)).len() == listed.len() + if broken {
            1nat
        } else {
            0nat
        },
        forall|x: Violation| #[trigger]
            (listed + listed_if(broken, violation)).contains(x) <==> listed.contains(x) || (broken
                && x == violation),
        listed.no_duplicates() && !listed.contains(violation) ==> (listed + listed_if(
            broken,
            violation,
        )).no_duplicates(),
{
    let longer = listed + listed_if(broken, violation);
    if broken {
        assert(longer =~= listed.push(violation));
        assert(longer[listed.len() as int] == violation);
        assert forall|x: Violation| #[trigger] longer.contains(x) implies listed.contains(x) || x
            == violation by {
            let i = choose|i: int| 0 <= i < longer.len() && longer[i] == x;
            if i < listed.len() {
                assert(listed[i] == x);
            }
        }
        assert forall|x: Violation| listed.contains(x) implies #[trigger] longer.contains(x) by {
            let i = choose|i: int| 0 <= i < listed.len() && listed[i] == x;
            assert(longer[i] == x);
        }
    } else {
        assert(longer =~= listed);
    }
}

/// A rule is broken exactly when its violation is listed, each at most once,
/// and a request is valid exactly when nothing is listed: no violation hides
/// another.
pub proof fn law_every_broken_rule_is_reported(req: RequestView, min: usize)
    ensures
        violations_of(req, min).contains(Violation::FirstNameRequired) <==> !first_name_ok(req),
        violations_of(req, min).contains(Violation::LastNameRequired) <==> !last_name_ok(req),
        violations_of(req, min).contains(Violation::InvalidEmail) <==> !well_formed_email(
            req.email,
        ),
        violations_of(req, min).contains(Violation::PasswordTooShort { min }) <==> !password_ok(
            req,
            min,
        ),
        violations_of(req, min).contains(Violation::PasswordMismatch) <==> !confirmation_ok(req),
        violations_of(req, min).no_duplicates(),
        violations_of(req, min).len() == 0 <==> valid(req, min),
{
    let none = Seq::<Violation>::empty();
    let s0 = none + listed_if(!first_name_ok(req), Violation::FirstNameRequired);
    let s1 = s0 + listed_if(!last_name_ok(req), Violation::LastNameRequired);
    let s2 = s1 + listed_if(!well_formed_email(req.email), Violation::InvalidEmail);
    let s3 = s2 + listed_if(!password_ok(req, min), Violation::PasswordTooShort { min });
    let s4 = s3 + listed_if(!confirmation_ok(req), Violation::PasswordMismatch);
    assert(s0 =~= listed_if(!first_name_ok(req), Violation::FirstNameRequired));
    assert(s4 == violations_of(req, min));
    lemma_one_more_rule(none, !first_name_ok(req), Violation::FirstNameRequired);
    lemma_one_more_rule(s0, !last_name_ok(req), Violation::LastNameRequired);
    lemma_one_more_rule(s1, !well_formed_email(req.email), Violation::InvalidEmail);
    lemma_one_more_rule(s2, !password_ok(req, min), Violation::PasswordTooShort { min });
    lemma_one_more_rule(s3, !confirmation_ok(req), Violation::PasswordMismatch);
    assert(!s0.contains(Violation::LastNameRequired));
    assert(!s1.contains(Violation::InvalidEmail));
    assert(!s2.contains(Violation::PasswordTooShort { min }));
    assert(!s3.contains(Violation::PasswordMismatch));
}

/// The sentence for a list of violations begins with the entry of the first.
pub proof fn lemma_rendered_begins_with_first(violations: Seq<Violation>)
    requires
        violations.len() > 0,
    ensures
        violations[0].entry().is_prefix_of(rendered(violations)),
    decreases violations.len(),
{
    if violations.len() > 1 {
        lemma_rendered_begins_with_first(violations.drop_last());
        assert(violations.drop_last()[0] == violations[0]);
    }
}

/// A request without a first name is invalid, its first violation is that of
/// the first name, and the sentence for the client begins with the name of
/// that field, whatever else is wrong with the request.
pub proof fn law_missing_first_name_is_named(req: RequestView, min: usize)
    requires
        req.first_name.len() == 0,
    ensures
        !valid(req, min),
        violations_of(req, min).len() > 0,
        violations_of(req, min)[0] == Violation::FirstNameRequired,
        "first_name"@.is_prefix_of(rendered(violations_of(req, min))),
{
    let vs = violations_of(req, min);
    assert(vs[0] == Violation::FirstNameRequired);
    lemma_rendered_begins_with_first(vs);
    let entry = Violation::FirstNameRequired.entry();
    assert("first_name"@.is_prefix_of(entry));
}

/// On a store whose rows are known, a valid request for an email that no
/// active user has is registered, unless the hash failed or the store holds
/// the fresh identifier already (which ends as a duplicate, and cannot happen
/// on a store without an identifier of a random UUID). The response echoes
/// the names and the email of the request under an identifier that is a
/// random UUID, and so not nil. What is stored in place of the credential
/// differs from it and verifies against it.
pub proof fn law_free_email_registers(
    before: Seq<UserView>,
    config: RegistrationConfig,
    req: RequestView,
    after: Seq<UserView>,
    end: RegisterEnd,
)
    requires
        flow(before, true, config, req, after, end),
        valid(req, config.min_password_length),
        !holds_active(before, req.email),
    ensures
        end is Registered || end is HashFailed || end is Duplicate,
        end is Duplicate ==> holds_random_id(before),
        end matches RegisterEnd::Registered(response) ==> {
            &&& response == echo_of(req, response.id)
            &&& is_uuid_v4(response.id)
            &&& response.id != 0
            &&& after.len() == before.len() + 1
            &&& after.last().password != req.password
            &&& bcrypt_verdict(req.password, after.last().password) == Some(true)
        },
{
    if let RegisterEnd::Registered(response) = end {
        lemma_uuid_v4_not_nil(response.id);
    }
}

/// The response says nothing of the credential: two registrations that
/// differ in nothing but the credential, its repetition, its digest and the
/// instant have one response.
pub proof fn law_response_hides_credential(
    req: RequestView,
    other: RequestView,
    digest: Seq<char>,
    other_digest: Seq<char>,
    id: u128,
    now: i64,
    other_now: i64,
)
    requires
        other.first_name == req.first_name,
        other.last_name == req.last_name,
        other.email == req.email,
    ensures
        response_of(entity_of(req, digest, id, now)) == response_of(
            entity_of(other, other_digest, id, other_now),
        ),
{
}

/// An active row with this email at the end of `rows` counts once more.
pub proof fn lemma_active_count_push(rows: Seq<UserView>, row: UserView, email: Seq<char>)
    ensures
        active_count(rows.push(row), email) == active_count(rows, email) + if is_active_with(
            row,
            email,
        ) {
            1nat
        } else {
            0nat
        },
{
    assert(rows.push(row).drop_last() =~= rows);
}

/// No active user has the email exactly when the count of such users is zero.
pub proof fn lemma_active_count_zero(rows: Seq<UserView>, email: Seq<char>)
    ensures
        active_count(rows, email) == 0 <==> !holds_active(rows, email),
    decreases rows.len(),
{
    if rows.len() > 0 {
        let front = rows.drop_last();
        lemma_active_count_zero(front, email);
        if holds_active(rows, email) {
            let i = choose|i: int| 0 <= i < rows.len() && is_active_with(#[trigger] rows[i], email);
            if i < rows.len() - 1 {
                assert(is_active_with(front[i], email));
            }
        }
        if holds_active(front, email) {
            let i = choose|i: int|
                0 <= i < front.len() && is_active_with(#[trigger] front[i], email);
            assert(is_active_with(rows[i], email));
        }
        if is_active_with(rows.last(), email) {
            assert(is_active_with(rows[rows.len() - 1], email));
        }
    }
}

/// After a registration, a second one of the same request on the same store
/// ends as a duplicate and leaves the store as the first left it: exactly one
/// active user has the email.
pub proof fn law_second_registration_is_duplicate(
    before: Seq<UserView>,
    config: RegistrationConfig,
    req: RequestView,
    between: Seq<UserView>,
    first: RegisterEnd,
    after: Seq<UserView>,
    second: RegisterEnd,
)
    requires
        flow(before, true, config, req, between, first),
        first is Registered,
        flow(between, true, config, req, after, second),
    ensures
        second is Duplicate,
        after == between,
        after.len() == before.len() + 1,
        holds_active(after, req.email),
        active_count(after, req.email) == 1,
{
    let row = between.last();
    assert(between[between.len() - 1] == row);
    assert(is_active_with(row, req.email));
    assert(holds_active(between, req.email));
    if let RegisterEnd::Registered(_) = second {
        let again = after.last();
        assert(conflicts(between, again));
    }
    lemma_active_count_push(before, row, req.email);
    lemma_active_count_zero(before, req.email);
}

/// Soft-deleted users do not hold their email: where every user with the
/// email of a valid request is soft-deleted, the request is registered on a
/// store whose rows are known, unless the hash failed or the fresh identifier
/// is taken, and the email then has one active user.
pub proof fn law_deleted_email_is_free(
    before: Seq<UserView>,
    config: RegistrationConfig,
    req: RequestView,
    after: Seq<UserView>,
    end: RegisterEnd,
)
    requires
        flow(before, true, config, req, after, end),
        valid(req, config.min_password_length),
        forall|i: int|
            0 <= i < before.len() && (#[trigger] before[i]).email == req.email
                ==> before[i].deleted_at is Some,
    ensures
        !holds_active(before, req.email),
        end is Registered || end is HashFailed || end is Duplicate,
        end is Duplicate ==> holds_random_id(before),
        end is Registered ==> active_count(after, req.email) == 1,
{
    law_free_email_registers(before, config, req, after, end);
    if end is Registered {
        lemma_active_count_push(before, after.last(), req.email);
        lemma_active_count_zero(before, req.email);
    }
}

/// The flow keeps the invariants of the store: whatever its end, the instants
/// of every row stay in order, no identifier occurs twice, and no two active
/// users share an email. The rows that were there are there unchanged.
pub proof fn law_flow_keeps_store_invariants(
    before: Seq<UserView>,
    config: RegistrationConfig,
    req: RequestView,
    after: Seq<UserView>,
    end: RegisterEnd,
)
    requires
        flow(before, true, config, req, after, end),
        store_wf(before),
    ensures
        store_wf(after),
        before.is_prefix_of(after),
        end is Registered <==> after.len() == before.len() + 1,
        !(end is Registered) ==> after == before,
{
    if end is Registered {
        law_accepted_row_keeps_invariants(before, after.last());
    }
}

} // verus!
