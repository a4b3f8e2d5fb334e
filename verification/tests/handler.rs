use rust_basic::config::RegistrationConfig;
use rust_basic::domain::entity::user::User;
use rust_basic::domain::repository::memory::InMemoryUserRepository;
use rust_basic::domain::repository::user::{RepositoryError, UserRepository};
use rust_basic::usecase::auth::register::dto::Request;
use rust_basic::usecase::auth::register::handler::{
    answer_on, error_reply, register_handler, respond, unavailable_reply, ApiResponse,
};
use rust_basic::usecase::auth::register::hasher::HashFailure;
use rust_basic::usecase::auth::register::service::{RegisterError, RegisterResponse};
use rust_basic::usecase::auth::register::validation::Violation;
use rust_basic::{ConnectionSource, ErrorLog, MemoryLog};
use std::cell::RefCell;
use std::rc::Rc;

/// One store behind every connection, and a count of the connections taken.
struct SharedStore {
    store: Rc<RefCell<InMemoryUserRepository>>,
    exhausted: bool,
    taken: usize,
}

struct Connection(Rc<RefCell<InMemoryUserRepository>>);

impl UserRepository for Connection {
    fn create(&mut self, user: User) -> Result<User, RepositoryError> {
        self.0.borrow_mut().create(user)
    }

    fn find_by_email(&mut self, email: &str) -> Result<Option<User>, RepositoryError> {
        self.0.borrow_mut().find_by_email(email)
    }
}

impl ConnectionSource for SharedStore {
    type Repository = Connection;

    fn acquire(&mut self) -> Option<Connection> {
        self.taken += 1;
        if self.exhausted {
            None
        } else {
            Some(Connection(self.store.clone()))
        }
    }
}

fn shared_store() -> SharedStore {
    SharedStore {
        store: Rc::new(RefCell::new(InMemoryUserRepository::new())),
        exhausted: false,
        taken: 0,
    }
}

struct Recorded(Vec<(u16, String, String)>);

impl ErrorLog for Recorded {
    fn log_error(&mut self, status: u16, message: &str, error: &str) {
        self.0.push((status, message.to_string(), error.to_string()));
    }
}

fn jane() -> Request {
    Request {
        first_name: "Jane".to_string(),
        last_name: "Doe".to_string(),
        email: "jane@example.com".to_string(),
        password: "secret1".to_string(),
        confirm_password: None,
    }
}

fn config() -> RegistrationConfig {
    RegistrationConfig { min_password_length: 6, hash_cost: 4 }
}

#[test]
fn jane_is_created_and_her_resubmission_is_a_bad_request() {
    let mut pool = shared_store();
    let mut log = Recorded(vec![]);
    let first = register_handler(&mut pool, &mut log, jane(), RegistrationConfig::default())
        .expect("the first submission is created");
    assert_eq!(first.0, 201);
    assert_ne!(first.1.id, 0);
    assert_eq!(uuid::Uuid::from_u128(first.1.id).to_string().len(), 36);
    assert_eq!(first.1.first_name, "Jane");
    assert_eq!(first.1.last_name, "Doe");
    assert_eq!(first.1.email, "jane@example.com");
    assert_eq!(first.1.message, "User registered successfully");
    assert_eq!(log.0.len(), 0);

    let second = register_handler(&mut pool, &mut log, jane(), RegistrationConfig::default())
        .expect_err("the second submission is refused");
    assert_eq!(second.0, 400);
    assert_eq!(second.1.error, "Email already registered");
    assert!(second.1.error.contains("Email"));
    assert_eq!(pool.store.borrow().len(), 1);
    assert_eq!(pool.store.borrow().count_active("jane@example.com"), 1);
    assert_eq!(
        log.0,
        vec![(
            400,
            "Registration failed".to_string(),
            "Email already registered".to_string()
        )]
    );
}

#[test]
fn an_invalid_payload_is_a_bad_request_and_takes_no_connection() {
    let mut pool = shared_store();
    let mut log = Recorded(vec![]);
    let mut payload = jane();
    payload.first_name = String::new();
    payload.password = "abc".to_string();
    let reply = register_handler(&mut pool, &mut log, payload, config())
        .expect_err("the payload breaks two rules");
    assert_eq!(reply.0, 400);
    assert_eq!(
        reply.1.error,
        "first_name: First name is required, password: Password must be at least 6 characters"
    );
    assert_eq!(pool.taken, 0);
    assert_eq!(pool.store.borrow().len(), 0);
    assert_eq!(
        log.0,
        vec![(
            400,
            "Validation error".to_string(),
            "first_name: First name is required, password: Password must be at least 6 characters"
                .to_string()
        )]
    );
}

#[test]
fn an_exhausted_pool_is_an_internal_error() {
    let mut pool = shared_store();
    pool.exhausted = true;
    let mut log = Recorded(vec![]);
    let reply = register_handler(&mut pool, &mut log, jane(), config())
        .expect_err("no connection is to be had");
    assert_eq!(reply.0, 500);
    assert_eq!(reply.1.error, "Internal server error");
    assert_eq!(pool.taken, 1);
    assert_eq!(
        log.0,
        vec![(
            500,
            "Database connection error".to_string(),
            "no connection could be acquired".to_string()
        )]
    );
}

#[test]
fn a_hashing_failure_is_an_internal_error_with_its_cause_in_the_log() {
    let mut pool = shared_store();
    let mut log = Recorded(vec![]);
    let bad_cost = RegistrationConfig { min_password_length: 6, hash_cost: 99 };
    let reply = register_handler(&mut pool, &mut log, jane(), bad_cost)
        .expect_err("the cost factor is not allowed");
    assert_eq!(reply.0, 500);
    assert_eq!(reply.1.error, "Internal server error");
    assert_eq!(
        log.0,
        vec![(
            500,
            "Registration failed".to_string(),
            "hashing failed: cost factor not allowed".to_string()
        )]
    );
    assert_eq!(pool.store.borrow().len(), 0);
}

#[test]
fn each_end_has_its_status_and_sentence() {
    let validation = RegisterError::Validation(vec![Violation::InvalidEmail]);
    assert_eq!(validation.status(), 400);
    assert_eq!(validation.client_message(), "email: Invalid email format");
    assert_eq!(validation.detail(), "email: Invalid email format");

    assert_eq!(RegisterError::DuplicateEmail.status(), 400);
    assert_eq!(RegisterError::DuplicateEmail.client_message(), "Email already registered");
    assert_eq!(RegisterError::DuplicateEmail.detail(), "Email already registered");

    let causes = [
        (HashFailure::CostNotAllowed(2), "hashing failed: cost factor not allowed"),
        (HashFailure::InvalidHash, "hashing failed: malformed digest"),
        (HashFailure::Random, "hashing failed: no randomness for the salt"),
        (HashFailure::Truncation(80), "hashing failed: credential too long"),
        (HashFailure::DigestEqualsPlaintext, "hashing failed: digest equals credential"),
    ];
    for (cause, detail) in causes {
        let hashing = RegisterError::Hashing(cause);
        assert_eq!(hashing.status(), 500);
        assert_eq!(hashing.client_message(), "Internal server error");
        assert_eq!(hashing.detail(), detail);
    }

    let unavailable = RegisterError::Persistence(RepositoryError::Unavailable);
    assert_eq!(unavailable.status(), 500);
    assert_eq!(unavailable.client_message(), "Internal server error");
    assert_eq!(unavailable.detail(), "store unavailable");
    let constraint = RegisterError::Persistence(RepositoryError::ConstraintViolation);
    assert_eq!(constraint.status(), 500);
    assert_eq!(constraint.client_message(), "Internal server error");
    assert_eq!(constraint.detail(), "store refused the row: constraint violated");
}

#[test]
fn replies_to_the_ends_of_the_flow() {
    let response = RegisterResponse {
        id: 5,
        first_name: "Jane".to_string(),
        last_name: "Doe".to_string(),
        email: "jane@example.com".to_string(),
        message: "User registered successfully".to_string(),
    };
    let ApiResponse(status, body) = respond(Ok(response)).expect("a response is a success");
    assert_eq!(status, 201);
    assert_eq!(body.id, 5);
    assert_eq!(body.email, "jane@example.com");

    let duplicate = respond(Err(RegisterError::DuplicateEmail)).expect_err("an error is an error");
    assert_eq!(duplicate.0, 400);
    assert_eq!(duplicate.1.error, "Email already registered");

    let hashing = respond(Err(RegisterError::Hashing(HashFailure::Random)))
        .expect_err("an error is an error");
    assert_eq!(hashing.0, 500);
    assert_eq!(hashing.1.error, "Internal server error");

    let reply = error_reply(&RegisterError::Validation(vec![Violation::PasswordMismatch]));
    assert_eq!(reply.0, 400);
    assert_eq!(reply.1.error, "confirm_password: Passwords do not match");

    let unavailable = unavailable_reply();
    assert_eq!(unavailable.0, 500);
    assert_eq!(unavailable.1.error, "Internal server error");
}

#[test]
fn a_log_in_memory_keeps_each_failure_once() {
    let mut pool = shared_store();
    let mut log = MemoryLog::new();
    assert_eq!(log.list().len(), 0);

    assert!(register_handler(&mut pool, &mut log, jane(), config()).is_ok());
    assert_eq!(log.list().len(), 0);

    let duplicate = register_handler(&mut pool, &mut log, jane(), config())
        .expect_err("the email is taken");
    assert_eq!(log.list().len(), 1);
    assert_eq!(log.list()[0].status, duplicate.0);
    assert_eq!(log.list()[0].status, 400);
    assert_eq!(log.list()[0].message, "Registration failed");
    assert_eq!(log.list()[0].error, "Email already registered");

    let mut invalid = jane();
    invalid.email = "nowhere".to_string();
    let refused = register_handler(&mut pool, &mut log, invalid, config())
        .expect_err("the email is malformed");
    assert_eq!(refused.0, 400);
    assert_eq!(log.list().len(), 2);
    assert_eq!(log.list()[1].status, 400);
    assert_eq!(log.list()[1].message, "Validation error");
    assert_eq!(log.list()[1].error, "email: Invalid email format");
    assert_eq!(pool.taken, 2);

    pool.exhausted = true;
    let unavailable = register_handler(&mut pool, &mut log, jane(), config())
        .expect_err("no connection is to be had");
    assert_eq!(unavailable.0, 500);
    assert_eq!(log.list().len(), 3);
    assert_eq!(log.list()[2].status, 500);
    assert_eq!(log.list()[2].message, "Database connection error");
    assert_eq!(log.list()[2].error, "no connection could be acquired");
}

#[test]
fn entries_are_kept_in_the_order_of_the_calls() {
    let mut log = MemoryLog::new();
    log.log_error(400, "first", "a");
    log.log_error(500, "second", "b");
    assert_eq!(log.list().len(), 2);
    assert_eq!(log.list()[0].status, 400);
    assert_eq!(log.list()[0].message, "first");
    assert_eq!(log.list()[0].error, "a");
    assert_eq!(log.list()[1].status, 500);
    assert_eq!(log.list()[1].message, "second");
    assert_eq!(log.list()[1].error, "b");
}

#[test]
fn the_flow_over_a_repository_answers_and_hands_the_repository_back() {
    let mut log = MemoryLog::new();
    let (first, repository) = answer_on(InMemoryUserRepository::new(), &mut log, jane(), config());
    let created = first.expect("the store is empty");
    assert_eq!(created.0, 201);
    assert_eq!(created.1.email, "jane@example.com");
    assert_eq!(repository.len(), 1);
    assert_eq!(repository.count_active("jane@example.com"), 1);
    assert_eq!(log.list().len(), 0);

    let (second, repository) = answer_on(repository, &mut log, jane(), config());
    let refused = second.expect_err("the email is taken");
    assert_eq!(refused.0, 400);
    assert_eq!(refused.1.error, "Email already registered");
    assert_eq!(repository.len(), 1);
    assert_eq!(log.list().len(), 1);
    assert_eq!(log.list()[0].status, 400);
    assert_eq!(log.list()[0].message, "Registration failed");
    assert_eq!(log.list()[0].error, "Email already registered");

    let bad_cost = RegistrationConfig { min_password_length: 6, hash_cost: 1 };
    let mut other = jane();
    other.email = "john@example.com".to_string();
    let (third, repository) = answer_on(repository, &mut log, other, bad_cost);
    let failed = third.expect_err("the cost factor is not allowed");
    assert_eq!(failed.0, 500);
    assert_eq!(failed.1.error, "Internal server error");
    assert_eq!(repository.len(), 1);
    assert_eq!(log.list().len(), 2);
    assert_eq!(log.list()[1].status, 500);
    assert_eq!(log.list()[1].error, "hashing failed: cost factor not allowed");
}
