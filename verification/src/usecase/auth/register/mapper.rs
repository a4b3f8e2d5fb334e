//! From a request to the entity that is stored, and from the stored entity to
//! the response, which has no field for the credential.

use vstd::prelude::*;
use crate::domain::entity::user::{User, UserView};
use crate::usecase::auth::register::dto::{Request, RequestView};
use crate::usecase::auth::register::service::{RegisterResponse, RegisterResponseView};

verus! {

/// `id` has the version and variant bits of a random (version 4) UUID.
pub open spec fn is_uuid_v4(id: u128) -> bool {
    id & 0xF000_C000_0000_0000_0000u128 == 0x4000_8000_0000_0000_0000u128
}

/// Calls `uuid::Uuid::new_v4` and takes the 128 bits of the result by
/// `as_u128`. All but six bits are random; those six are the version, 4, and
/// the variant of RFC 4122.
#[verifier::external_body]
fn random_uuid_v4() -> (id: u128)
    ensures
        is_uuid_v4(id),
{
    uuid::Uuid::new_v4().as_u128()
}

/// Calls `chrono::Utc::now` and takes the instant by `timestamp_micros`:
/// microseconds since the Unix epoch. Nothing is known of the clock.
#[verifier::external_body]
fn utc_now_micros() -> (now: i64) {
    chrono::Utc::now().timestamp_micros()
}

/// The sentence that every successful registration is answered with.
pub open spec fn success_message() -> Seq<char> {
    "User registered successfully"@
}

/// The user that registers `req` under `id` at instant `now`, with `digest`
/// in place of the credential.
pub open spec fn entity_of(req: RequestView, digest: Seq<char>, id: u128, now: i64) -> UserView {
    UserView {
        id,
        first_name: req.first_name,
        last_name: req.last_name,
        email: req.email,
        password: digest,
        created_at: now,
        updated_at: now,
        deleted_at: None,
    }
}

/// The response to the registration of `user`.
pub open spec fn response_of(user: UserView) -> RegisterResponseView {
    RegisterResponseView {
        id: user.id,
        first_name: user.first_name,
        last_name: user.last_name,
        email: user.email,
        message: success_message(),
    }
}

/// The response that echoes the profile of `req` under `id`.
pub open spec fn echo_of(req: RequestView, id: u128) -> RegisterResponseView {
    RegisterResponseView {
        id,
        first_name: req.first_name,
        last_name: req.last_name,
        email: req.email,
        message: success_message(),
    }
}

/// A 128-bit value with the version and variant bits of a random UUID is not
/// the nil UUID.
pub proof fn lemma_uuid_v4_not_nil(id: u128)
    requires
        is_uuid_v4(id),
    ensures
        id != 0,
{
    assert(id & 0xF000_C000_0000_0000_0000u128 == 0x4000_8000_0000_0000_0000u128 ==> id != 0)
        by (bit_vector);
}

/// Builds the user that registers `req` under `id` at instant `now`.
pub fn build_entity(req: Request, hashed_password: String, id: u128, now: i64) -> (user: User)
    ensures
        user@ == entity_of(req@, hashed_password@, id, now),
{
    User {
        id,
        first_name: req.first_name,
        last_name: req.last_name,
        email: req.email,
        password: hashed_password,
        created_at: now,
        updated_at: now,
        deleted_at: None,
    }
}

/// Builds the user that registers `req`: under a fresh random identifier,
/// created and last updated at the current instant, not deleted, and with
/// `hashed_password` in place of the credential.
///
/// The identifier and the instant come from the system. On a system that
/// gives no random bytes, or whose clock stands before 1970, the call that
/// asks for them panics; no argument of this function brings that about.
pub fn map_request_to_entity(req: Request, hashed_password: String) -> (user: User)
    ensures
        user@ == entity_of(req@, hashed_password@, user.id, user.created_at),
        is_uuid_v4(user.id),
        user.wf(),
{
    let id = random_uuid_v4();
    let now = utc_now_micros();
    build_entity(req, hashed_password, id, now)
}

/// Builds the response to the registration of `user`: its public fields and
/// the success message.
pub fn map_entity_to_response(user: User) -> (response: RegisterResponse)
    ensures
        response@ == response_of(user@),
{
    RegisterResponse {
        id: user.id,
        first_name: user.first_name,
        last_name: user.last_name,
        email: user.email,
        message: "User registered successfully".to_owned(),
    }
}

} // verus!
