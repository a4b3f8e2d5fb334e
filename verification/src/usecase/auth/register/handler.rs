//! The HTTP face of the registration flow: which status and body answer each
//! of its ends.

use vstd::prelude::*;
use crate::config::RegistrationConfig;
use crate::domain::entity::user::UserView;
use crate::domain::repository::user::{RepositoryError, UserRepository};
use crate::usecase::auth::register::dto::{Request, RequestView};
use crate::usecase::auth::register::hasher::HashFailure;
use crate::usecase::auth::register::mapper::{echo_of, is_uuid_v4};
use crate::usecase::auth::register::service::{
    end_of, flow, RegisterEnd, RegisterError, RegisterResponse, RegisterService,
    RegisterServiceImpl,
};
use crate::usecase::auth::register::validation::{
    render_violations, rendered, valid, violations_of, Violation,
};
use crate::{recorded, ConnectionSource, ErrorLog, ErrorResponse, LogEntryView};

verus! {

/// A status code and the body that goes out under it.
#[derive(Debug)]
pub struct ApiResponse<T>(pub u16, pub T);

pub const STATUS_CREATED: u16 = 201;

pub const STATUS_BAD_REQUEST: u16 = 400;

pub const STATUS_INTERNAL_SERVER_ERROR: u16 = 500;

/// What a client is told when an active user has the email already.
pub open spec fn duplicate_message() -> Seq<char> {
    "Email already registered"@
}

/// What a client is told when the fault is the server's.
pub open spec fn internal_message() -> Seq<char> {
    "Internal server error"@
}

impl RegisterEnd {
    /// The status that answers this end: 201 for a registration, 400 where
    /// the request is at fault, 500 where the server is.
    pub open spec fn status_code(self) -> u16 {
        match self {
            RegisterEnd::Registered(_) => STATUS_CREATED,
            RegisterEnd::Invalid(_) => STATUS_BAD_REQUEST,
            RegisterEnd::Duplicate => STATUS_BAD_REQUEST,
            RegisterEnd::HashFailed(_) => STATUS_INTERNAL_SERVER_ERROR,
            RegisterEnd::StoreFailed(_) => STATUS_INTERNAL_SERVER_ERROR,
        }
    }

    /// The sentence that a client may see: specific where the request is at
    /// fault, and the same for every fault of the server.
    pub open spec fn client_text(self) -> Seq<char> {
        match self {
            RegisterEnd::Registered(response) => response.message,
            RegisterEnd::Invalid(violations) => rendered(violations),
            RegisterEnd::Duplicate => duplicate_message(),
            RegisterEnd::HashFailed(_) => internal_message(),
            RegisterEnd::StoreFailed(_) => internal_message(),
        }
    }

    /// The cause as the log records it. For a fault of the server this says
    /// what the client is not told.
    pub open spec fn detail_text(self) -> Seq<char> {
        match self {
            RegisterEnd::Registered(response) => response.message,
            RegisterEnd::Invalid(violations) => rendered(violations),
            RegisterEnd::Duplicate => duplicate_message(),
            RegisterEnd::HashFailed(failure) => match failure {
                HashFailure::CostNotAllowed(_) => "hashing failed: cost factor not allowed"@,
                HashFailure::InvalidHash => "hashing failed: malformed digest"@,
                HashFailure::Random => "hashing failed: no randomness for the salt"@,
                HashFailure::Truncation(_) => "hashing failed: credential too long"@,
                HashFailure::DigestEqualsPlaintext => "hashing failed: digest equals credential"@,
            },
            RegisterEnd::StoreFailed(cause) => match cause {
                RepositoryError::ConstraintViolation => "store refused the row: constraint violated"@,
                RepositoryError::Unavailable => "store unavailable"@,
            },
        }
    }
}

impl RegisterError {
    /// The status that answers this error.
    pub open spec fn status_code(self) -> u16 {
        self.end().status_code()
    }

    /// The sentence that a client may see.
    pub open spec fn client_text(self) -> Seq<char> {
        self.end().client_text()
    }

    /// The cause as the log records it.
    pub open spec fn detail_text(self) -> Seq<char> {
        self.end().detail_text()
    }

    /// The status that answers this end.
    pub fn status(&self) -> (res: u16)
        ensures
            res == self.status_code(),
            res == STATUS_BAD_REQUEST || res == STATUS_INTERNAL_SERVER_ERROR,
    {
        match self {
            RegisterError::Validation(_) => STATUS_BAD_REQUEST,
            RegisterError::DuplicateEmail => STATUS_BAD_REQUEST,
            RegisterError::Hashing(_) => STATUS_INTERNAL_SERVER_ERROR,
            RegisterError::Persistence(_) => STATUS_INTERNAL_SERVER_ERROR,
        }
    }

    /// The sentence that a client may see.
    pub fn client_message(&self) -> (res: String)
        ensures
            res@ == self.client_text(),
    {
        match self {
            RegisterError::Validation(violations) => render_violations(violations),
            RegisterError::DuplicateEmail => "Email already registered".to_owned(),
            RegisterError::Hashing(_) => "Internal server error".to_owned(),
            RegisterError::Persistence(_) => "Internal server error".to_owned(),
        }
    }

    /// The cause as the log records it.
    pub fn detail(&self) -> (res: String)
        ensures
            res@ == self.detail_text(),
    {
        match self {
            RegisterError::Validation(violations) => render_violations(violations),
            RegisterError::DuplicateEmail => "Email already registered".to_owned(),
            RegisterError::Hashing(failure) => match failure {
                HashFailure::CostNotAllowed(_) => "hashing failed: cost factor not allowed".to_owned(),
                HashFailure::InvalidHash => "hashing failed: malformed digest".to_owned(),
                HashFailure::Random => "hashing failed: no randomness for the salt".to_owned(),
                HashFailure::Truncation(_) => "hashing failed: credential too long".to_owned(),
                HashFailure::DigestEqualsPlaintext => "hashing failed: digest equals credential".to_owned(),
            },
            RegisterError::Persistence(cause) => match cause {
                RepositoryError::ConstraintViolation => "store refused the row: constraint violated".to_owned(),
                RepositoryError::Unavailable => "store unavailable".to_owned(),
            },
        }
    }
}

/// The answer to a request that ended with `error`.
pub fn error_reply(error: &RegisterError) -> (res: ApiResponse<ErrorResponse>)
    ensures
        res.0 == error.status_code(),
        res.1.error@ == error.client_text(),
{
    ApiResponse(error.status(), ErrorResponse { error: error.client_message() })
}

/// The answer to a request for which no connection to the store could be
/// had: status 500 with the sentence for every fault of the server.
pub fn unavailable_reply() -> (res: ApiResponse<ErrorResponse>)
    ensures
        res.0 == STATUS_INTERNAL_SERVER_ERROR,
        res.1.error@ == internal_message(),
{
    ApiResponse(
        STATUS_INTERNAL_SERVER_ERROR,
        ErrorResponse { error: "Internal server error".to_owned() },
    )
}

/// The answer to each end of the registration flow: status 201 with the
/// response, or the status and sentence of the error.
pub fn respond(outcome: Result<RegisterResponse, RegisterError>) -> (res: Result<
    ApiResponse<RegisterResponse>,
    ApiResponse<ErrorResponse>,
>)
    ensures
        match outcome {
            Ok(response) => res matches Ok(reply) && reply.0 == STATUS_CREATED && reply.1
                == response,
            Err(error) => res matches Err(reply) && reply.0 == error.status_code()
                && reply.1.error@ == error.client_text(),
        },
{
    match outcome {
        Ok(response) => Ok(ApiResponse(STATUS_CREATED, response)),
        Err(error) => Err(error_reply(&error)),
    }
}

/// The type of every answer to a registration request.
pub type Reply = Result<ApiResponse<RegisterResponse>, ApiResponse<ErrorResponse>>;

/// `reply` is the answer to `end`: status 201 with the response, or the
/// status and sentence of the failure.
pub open spec fn answers(end: RegisterEnd, reply: Reply) -> bool {
    match end {
        RegisterEnd::Registered(response) => {
            &&& reply matches Ok(created)
            &&& created.0 == STATUS_CREATED
            &&& created.1@ == response
        },
        _ => {
            &&& reply matches Err(refused)
            &&& refused.0 == end.status_code()
            &&& refused.1.error@ == end.client_text()
        },
    }
}

/// What the log holds of a request that broke field rules.
pub open spec fn validation_entry(violations: Seq<Violation>) -> LogEntryView {
    LogEntryView {
        status: STATUS_BAD_REQUEST,
        message: "Validation error"@,
        error: rendered(violations),
    }
}

/// What the log holds of a request for which no connection was to be had.
pub open spec fn connection_entry() -> LogEntryView {
    LogEntryView {
        status: STATUS_INTERNAL_SERVER_ERROR,
        message: "Database connection error"@,
        error: "no connection could be acquired"@,
    }
}

/// What the log holds of a flow that ended without an account.
pub open spec fn failure_entry(end: RegisterEnd) -> LogEntryView {
    LogEntryView {
        status: end.status_code(),
        message: "Registration failed"@,
        error: end.detail_text(),
    }
}

/// What `end` does to the log: a registration leaves it as it was, and every
/// other end is recorded once, with its status and its cause.
pub open spec fn records_end<L: ErrorLog>(end: RegisterEnd, before: L, after: L) -> bool {
    match end {
        RegisterEnd::Registered(_) => after == before,
        _ => recorded(before, after, failure_entry(end)),
    }
}

/// The flow ran once on a store that held `rows` and holds `rows_after`, and
/// came to `end`, which `reply` answers and which turned the log from
/// `log_before` into `log_after`.
pub open spec fn flow_answered<L: ErrorLog>(
    rows: Seq<UserView>,
    owned: bool,
    config: RegistrationConfig,
    req: RequestView,
    rows_after: Seq<UserView>,
    end: RegisterEnd,
    reply: Reply,
    log_before: L,
    log_after: L,
) -> bool {
    &&& flow(rows, owned, config, req, rows_after, end)
    &&& answers(end, reply)
    &&& records_end(end, log_before, log_after)
}

/// Runs the registration flow once over `repository`, records a failure in
/// `log`, and answers the end of the flow as [`respond`] says. The repository
/// comes back as the flow left it.
pub fn answer_on<R: UserRepository, L: ErrorLog>(
    repository: R,
    log: &mut L,
    payload: Request,
    config: RegistrationConfig,
) -> (res: (Reply, R))
    ensures
        res.1.owns_rows() == repository.owns_rows(),
        exists|end: RegisterEnd| #[trigger]
            flow_answered(
                repository.rows(),
                repository.owns_rows(),
                config,
                payload@,
                res.1.rows(),
                end,
                res.0,
                *old(log),
                *final(log),
            ),
{
    let mut service = RegisterServiceImpl::with_config(repository, config);
    let outcome = service.register(payload);
    let ghost end = end_of(outcome);
    if let Err(error) = &outcome {
        let detail = error.detail();
        log.log_error(error.status(), "Registration failed", detail.as_str());
    }
    let reply = respond(outcome);
    let res = (reply, service.into_repository());
    assert(flow_answered(
        repository.rows(),
        repository.owns_rows(),
        config,
        payload@,
        res.1.rows(),
        end,
        res.0,
        *old(log),
        *final(log),
    ));
    res
}

/// The flow ran once over some store and came to an end that `reply` answers
/// and that turned the log from `before` into `after`.
pub open spec fn answered_by_flow<L: ErrorLog>(
    config: RegistrationConfig,
    req: RequestView,
    reply: Reply,
    before: L,
    after: L,
) -> bool {
    exists|rows: Seq<UserView>, owned: bool, rows_after: Seq<UserView>, end: RegisterEnd| #[trigger]
        flow_answered(rows, owned, config, req, rows_after, end, reply, before, after)
}

/// Answers one registration request.
///
/// The request is validated before anything else is touched: one that breaks
/// a rule is answered with status 400 and all its violations in one sentence,
/// and the pool is left alone. Only then a connection is taken from `pool`,
/// for the time of this request; where none is to be had the answer is status
/// 500. Otherwise the flow runs once over that connection, as [`answer_on`]
/// says. Every failure is recorded once in `log`, with its status and its
/// cause; a registration leaves the log as it was.
pub fn register_handler<P: ConnectionSource, L: ErrorLog>(
    pool: &mut P,
    log: &mut L,
    payload: Request,
    config: RegistrationConfig,
) -> (res: Reply)
    ensures
        !valid(payload@, config.min_password_length) ==> {
            &&& res matches Err(reply)
            &&& reply.0 == STATUS_BAD_REQUEST
            &&& reply.1.error@ == rendered(violations_of(payload@, config.min_password_length))
            &&& *final(pool) == *old(pool)
            &&& recorded(
                *old(log),
                *final(log),
                validation_entry(violations_of(payload@, config.min_password_length)),
            )
        },
        valid(payload@, config.min_password_length) ==> {
            ||| {
                &&& res matches Err(reply)
                &&& reply.0 == STATUS_INTERNAL_SERVER_ERROR
                &&& reply.1.error@ == internal_message()
                &&& recorded(*old(log), *final(log), connection_entry())
            }
            ||| answered_by_flow(config, payload@, res, *old(log), *final(log))
        },
        res matches Ok(reply) ==> {
            &&& valid(payload@, config.min_password_length)
            &&& reply.0 == STATUS_CREATED
            &&& reply.1@ == echo_of(payload@, reply.1.id)
            &&& is_uuid_v4(reply.1.id)
            &&& *final(log) == *old(log)
        },
        res matches Err(reply) ==> {
            ||| reply.0 == STATUS_BAD_REQUEST && reply.1.error@ == rendered(
                violations_of(payload@, config.min_password_length),
            ) && !valid(payload@, config.min_password_length)
            ||| reply.0 == STATUS_BAD_REQUEST && reply.1.error@ == duplicate_message()
            ||| reply.0 == STATUS_INTERNAL_SERVER_ERROR && reply.1.error@ == internal_message()
        },
        final(log).keeps_entries() == old(log).keeps_entries(),
        old(log).keeps_entries() && res is Err ==> final(log).entries().len() == old(
            log,
        ).entries().len() + 1 && final(log).entries().last().status == res->Err_0.0,
{
    if let Err(violations) = payload.validate(config.min_password_length) {
        let error = RegisterError::Validation(violations);
        let detail = error.detail();
        log.log_error(STATUS_BAD_REQUEST, "Validation error", detail.as_str());
        return Err(error_reply(&error));
    }
    let repository = match pool.acquire() {
        Some(repository) => repository,
        None => {
            log.log_error(
                STATUS_INTERNAL_SERVER_ERROR,
                "Database connection error",
                "no connection could be acquired",
            );
            return Err(unavailable_reply());
        },
    };
    let (reply, _) = answer_on(repository, log, payload, config);
    reply
}

} // verus!
