//! The registration flow: validate, probe for the email, hash, store, respond.

use vstd::prelude::*;
use crate::config::RegistrationConfig;
use crate::domain::entity::user::{User, UserView};
use crate::domain::repository::user::{conflicts, holds_active, RepositoryError, UserRepository};
use crate::usecase::auth::register::dto::{Request, RequestView};
use crate::usecase::auth::register::hasher::{
    bcrypt_verdict, cost_allowed, hash_password, hashing_failure, HashFailure, DIGEST_LENGTH,
};
use crate::usecase::auth::register::mapper::{
    echo_of, entity_of, is_uuid_v4, map_entity_to_response, map_request_to_entity, response_of,
};
use crate::usecase::auth::register::validation::{valid, violations_of, Violation};

verus! {

/// What a client learns of the account it registered.
#[derive(Debug)]
pub struct RegisterResponse {
    pub id: u128,
    pub first_name: String,
    pub last_name: String,
    pub email: String,
    pub message: String,
}

/// What a [`RegisterResponse`] is to the contracts.
pub struct RegisterResponseView {
    pub id: u128,
    pub first_name: Seq<char>,
    pub last_name: Seq<char>,
    pub email: Seq<char>,
    pub message: Seq<char>,
}

impl View for RegisterResponse {
    type V = RegisterResponseView;

    open spec fn view(&self) -> RegisterResponseView {
        RegisterResponseView {
            id: self.id,
            first_name: self.first_name@,
            last_name: self.last_name@,
            email: self.email@,
            message: self.message@,
        }
    }
}

/// Why a registration ended without an account.
#[derive(Debug)]
pub enum RegisterError {
    /// The request broke field rules: all of them, in the order of the fields.
    Validation(Vec<Violation>),
    /// An active user has the email already.
    DuplicateEmail,
    /// No digest of the credential came out.
    Hashing(HashFailure),
    /// The store could not be reached.
    Persistence(RepositoryError),
}

/// Decides on the answer of the probe for the email: the flow goes on when no
/// active user was found, ends as a duplicate when one was, and ends with the
/// failure of the store otherwise.
pub fn probe_verdict(found: Result<Option<User>, RepositoryError>) -> (res: Result<
    (),
    RegisterError,
>)
    ensures
        match found {
            Ok(None) => res is Ok,
            Ok(Some(_)) => res matches Err(RegisterError::DuplicateEmail),
            Err(cause) => res matches Err(RegisterError::Persistence(failed)) && failed == cause,
        },
{
    match found {
        Ok(None) => Ok(()),
        Ok(Some(_)) => Err(RegisterError::DuplicateEmail),
        Err(cause) => Err(RegisterError::Persistence(cause)),
    }
}

/// Decides on the answer of the store to the new row. A violated constraint
/// means that another registration of the email came between the probe and
/// the write, so it ends as the probe would have: as a duplicate.
pub fn persisted_verdict(created: Result<User, RepositoryError>) -> (res: Result<
    RegisterResponse,
    RegisterError,
>)
    ensures
        match created {
            Ok(user) => res matches Ok(response) && response@ == response_of(user@),
            Err(RepositoryError::ConstraintViolation) => res matches Err(
                RegisterError::DuplicateEmail,
            ),
            Err(RepositoryError::Unavailable) => res matches Err(
                RegisterError::Persistence(RepositoryError::Unavailable),
            ),
        },
{
    match created {
        Ok(user) => Ok(map_entity_to_response(user)),
        Err(RepositoryError::ConstraintViolation) => Err(RegisterError::DuplicateEmail),
        Err(RepositoryError::Unavailable) => Err(
            RegisterError::Persistence(RepositoryError::Unavailable),
        ),
    }
}

/// The registration of accounts.
pub trait RegisterService {
    /// Registers the account that `req` asks for, or says why not.
    fn register(&mut self, req: Request) -> Result<RegisterResponse, RegisterError>;
}

/// The registration flow over a user repository.
pub struct RegisterServiceImpl<R: UserRepository> {
    user_repository: R,
    config: RegistrationConfig,
}

impl<R: UserRepository> RegisterServiceImpl<R> {
    /// The rows of the repository.
    pub closed spec fn rows(&self) -> Seq<UserView> {
        self.user_repository.rows()
    }

    /// The repository is the store itself, see [`UserRepository::owns_rows`].
    pub closed spec fn owns_rows(&self) -> bool {
        self.user_repository.owns_rows()
    }

    /// What the flow is configured with.
    pub closed spec fn configured(&self) -> RegistrationConfig {
        self.config
    }

    /// A service over `user_repository`, for passwords of six characters or
    /// more, hashed at cost 12.
    pub fn new(user_repository: R) -> (res: Self)
        ensures
            res.rows() == user_repository.rows(),
            res.owns_rows() == user_repository.owns_rows(),
            res.configured().min_password_length == 6,
            res.configured().hash_cost == 12,
    {
        RegisterServiceImpl { user_repository, config: RegistrationConfig::default() }
    }

    /// A service over `user_repository` with a configuration of its own.
    pub fn with_config(user_repository: R, config: RegistrationConfig) -> (res: Self)
        ensures
            res.rows() == user_repository.rows(),
            res.owns_rows() == user_repository.owns_rows(),
            res.configured() == config,
    {
        RegisterServiceImpl { user_repository, config }
    }

    /// The repository, to look into.
    pub fn repository(&self) -> (res: &R)
        ensures
            res.rows() == self.rows(),
            res.owns_rows() == self.owns_rows(),
    {
        &self.user_repository
    }

    /// Gives the repository back.
    pub fn into_repository(self) -> (res: R)
        ensures
            res.rows() == self.rows(),
            res.owns_rows() == self.owns_rows(),
    {
        self.user_repository
    }
}

/// `row` is what a successful registration of `req` stores: the profile of
/// the request under a random identifier, in place of the credential a digest
/// that verifies against it, created and last updated at one instant, and
/// not deleted.
pub open spec fn registers(row: UserView, req: RequestView) -> bool {
    &&& row == entity_of(req, row.password, row.id, row.created_at)
    &&& is_uuid_v4(row.id)
    &&& bcrypt_verdict(req.password, row.password) == Some(true)
    &&& row.password != req.password
    &&& row.password.len() == DIGEST_LENGTH
}

/// Some row of `rows` has the identifier of a random UUID, which a fresh
/// identifier may hit.
pub open spec fn holds_random_id(rows: Seq<UserView>) -> bool {
    exists|i: int| 0 <= i < rows.len() && is_uuid_v4(#[trigger] rows[i].id)
}

/// One of the five ends of the flow, as a value of the contracts.
pub enum RegisterEnd {
    Registered(RegisterResponseView),
    Invalid(Seq<Violation>),
    Duplicate,
    HashFailed(HashFailure),
    StoreFailed(RepositoryError),
}

impl RegisterError {
    /// The end that this error stands for.
    pub open spec fn end(self) -> RegisterEnd {
        match self {
            RegisterError::Validation(violations) => RegisterEnd::Invalid(violations@),
            RegisterError::DuplicateEmail => RegisterEnd::Duplicate,
            RegisterError::Hashing(failure) => RegisterEnd::HashFailed(failure),
            RegisterError::Persistence(cause) => RegisterEnd::StoreFailed(cause),
        }
    }
}

/// The end that a result of [`RegisterService::register`] stands for.
pub open spec fn end_of(res: Result<RegisterResponse, RegisterError>) -> RegisterEnd {
    match res {
        Ok(response) => RegisterEnd::Registered(response@),
        Err(error) => error.end(),
    }
}

/// One run of the flow: the request `req` came to `end`, on a store that held
/// `before` and holds `after`, if `owned` says that the rows of the store are
/// known (see [`UserRepository::owns_rows`]).
///
/// A request that breaks a rule ends as invalid, with all its violations. A
/// valid one is registered only under an allowed cost factor, and is answered
/// with its own names and email under a random identifier.
///
/// Of a store whose rows are known: a request is registered only if the new
/// row conflicts with none; the store then holds that one row more, and the
/// response describes it. Every other end leaves the store as it was. A valid
/// request for an email that an active user has never gets as far as the
/// hash. One for a free email ends as a duplicate only where the fresh
/// identifier is that of a row, which takes a row with the identifier of a
/// random UUID. Such a store never fails.
pub open spec fn flow(
    before: Seq<UserView>,
    owned: bool,
    config: RegistrationConfig,
    req: RequestView,
    after: Seq<UserView>,
    end: RegisterEnd,
) -> bool {
    let ok = valid(req, config.min_password_length);
    let taken = holds_active(before, req.email);
    match end {
        RegisterEnd::Registered(response) => {
            let row = after.last();
            &&& ok
            &&& cost_allowed(config.hash_cost)
            &&& response == echo_of(req, response.id)
            &&& is_uuid_v4(response.id)
            &&& owned ==> {
                &&& after == before.push(row)
                &&& registers(row, req)
                &&& !conflicts(before, row)
                &&& response == response_of(row)
            }
        },
        RegisterEnd::Invalid(violations) => {
            &&& !ok
            &&& violations == violations_of(req, config.min_password_length)
            &&& violations.len() > 0
            &&& owned ==> after == before
        },
        RegisterEnd::Duplicate => {
            &&& ok
            &&& owned ==> after == before && (taken || holds_random_id(before))
        },
        RegisterEnd::HashFailed(failure) => {
            &&& ok
            &&& hashing_failure(failure)
            &&& failure matches HashFailure::CostNotAllowed(refused) ==> refused
                == config.hash_cost && !cost_allowed(config.hash_cost)
            &&& owned ==> after == before && !taken
        },
        RegisterEnd::StoreFailed(cause) => {
            &&& ok
            &&& !owned
            &&& cause == RepositoryError::Unavailable
        },
    }
}

impl<R: UserRepository> RegisterService for RegisterServiceImpl<R> {
    /// Runs the flow once, to one of its five ends: validate, probe the store
    /// for the email, hash the credential, build the entity, store it, and
    /// map what was stored to the response. Nothing is tried twice.
    fn register(&mut self, req: Request) -> (res: Result<RegisterResponse, RegisterError>)
        ensures
            final(self).configured() == old(self).configured(),
            final(self).owns_rows() == old(self).owns_rows(),
            flow(
                old(self).rows(),
                old(self).owns_rows(),
                old(self).configured(),
                req@,
                final(self).rows(),
                end_of(res),
            ),
    {
        if let Err(violations) = req.validate(self.config.min_password_length) {
            return Err(RegisterError::Validation(violations));
        }
        let found = self.user_repository.find_by_email(req.email.as_str());
        if let Err(e) = probe_verdict(found) {
            return Err(e);
        }
        let digest = match hash_password(req.password.as_str(), self.config.hash_cost) {
            Ok(digest) => digest,
            Err(failure) => {
                return Err(RegisterError::Hashing(failure));
            },
        };
        let new_user = map_request_to_entity(req, digest);
        let ghost before = self.user_repository.rows();
        let ghost id = new_user.id;
        let created = self.user_repository.create(new_user);
        proof {
            if self.user_repository.owns_rows() && created is Err {
                let i = choose|i: int| 0 <= i < before.len() && (#[trigger] before[i]).id == id;
                assert(is_uuid_v4(before[i].id));
            }
        }
        persisted_verdict(created)
    }
}

} // verus!
