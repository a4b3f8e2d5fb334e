use rust_basic::text::to_decimal;
use rust_basic::usecase::auth::register::dto::Request;
use rust_basic::usecase::auth::register::validation::{check_fields, render_violations, Violation};

fn request(
    first_name: &str,
    last_name: &str,
    email: &str,
    password: &str,
    confirm_password: Option<&str>,
) -> Request {
    Request {
        first_name: first_name.to_string(),
        last_name: last_name.to_string(),
        email: email.to_string(),
        password: password.to_string(),
        confirm_password: confirm_password.map(|c| c.to_string()),
    }
}

#[test]
fn a_complete_request_is_valid() {
    assert_eq!(request("Jane", "Doe", "jane@example.com", "secret1", None).validate(6), Ok(()));
    let confirmed = request("Jane", "Doe", "jane@example.com", "secret1", Some("secret1"));
    assert_eq!(confirmed.validate(6), Ok(()));
}

#[test]
fn a_missing_first_name_is_reported_under_its_field() {
    let violations = request("", "Doe", "jane@example.com", "secret1", None)
        .validate(6)
        .expect_err("the first name is missing");
    assert_eq!(violations, vec![Violation::FirstNameRequired]);
    let sentence = render_violations(&violations);
    assert_eq!(sentence, "first_name: First name is required");
    assert!(sentence.contains("first_name"));
}

#[test]
fn every_broken_rule_is_reported_in_the_order_of_the_fields() {
    let violations = request("", "", "not-an-email", "abc", Some("abd"))
        .validate(6)
        .expect_err("every rule is broken");
    assert_eq!(
        violations,
        vec![
            Violation::FirstNameRequired,
            Violation::LastNameRequired,
            Violation::InvalidEmail,
            Violation::PasswordTooShort { min: 6 },
            Violation::PasswordMismatch,
        ]
    );
    assert_eq!(
        render_violations(&violations),
        "first_name: First name is required, last_name: Last name is required, \
         email: Invalid email format, password: Password must be at least 6 characters, \
         confirm_password: Passwords do not match"
    );
}

#[test]
fn each_rule_is_reported_alone() {
    let missing_last = request("Jane", "", "jane@example.com", "secret1", None);
    assert_eq!(missing_last.validate(6), Err(vec![Violation::LastNameRequired]));
    let bad_email = request("Jane", "Doe", "jane.example.com", "secret1", None);
    assert_eq!(bad_email.validate(6), Err(vec![Violation::InvalidEmail]));
    let short = request("Jane", "Doe", "jane@example.com", "secre", None);
    assert_eq!(short.validate(6), Err(vec![Violation::PasswordTooShort { min: 6 }]));
    let mismatch = request("Jane", "Doe", "jane@example.com", "secret1", Some("secret2"));
    assert_eq!(mismatch.validate(6), Err(vec![Violation::PasswordMismatch]));
}

#[test]
fn the_password_is_measured_in_characters() {
    // Six characters, twelve bytes.
    let six = request("Jane", "Doe", "jane@example.com", "éééééé", None);
    assert_eq!(six.validate(6), Ok(()));
    assert_eq!(six.validate(7), Err(vec![Violation::PasswordTooShort { min: 7 }]));
    let exact = request("Jane", "Doe", "jane@example.com", "123456", None);
    assert_eq!(exact.validate(6), Ok(()));
    assert_eq!(exact.validate(0), Ok(()));
}

#[test]
fn the_email_syntax_is_that_of_html_forms() {
    let accepted = [
        "email@here.com",
        "weirder-email@here.and.there.com",
        "email@[127.0.0.1]",
        "abc@bar",
        "example@valid-with-hyphens.com",
    ];
    for email in accepted {
        assert_eq!(request("Jane", "Doe", email, "secret1", None).validate(6), Ok(()));
    }
    let refused = [
        "",
        "abc",
        "abc@",
        "a @x.cz",
        "abc@.com",
        "something@@somewhere.com",
        "example@invalid-.com",
        "a@b.com\n",
        "John.Doe@exam_ple.com",
    ];
    for email in refused {
        assert_eq!(
            request("Jane", "Doe", email, "secret1", None).validate(6),
            Err(vec![Violation::InvalidEmail])
        );
    }
}

#[test]
fn the_verdict_on_the_email_is_taken_as_given() {
    let req = request("Jane", "Doe", "jane@example.com", "secret1", None);
    assert_eq!(check_fields(&req, true, 6), vec![]);
    assert_eq!(check_fields(&req, false, 6), vec![Violation::InvalidEmail]);
    let empty = request("", "", "", "", Some("x"));
    assert_eq!(
        check_fields(&empty, true, 1),
        vec![
            Violation::FirstNameRequired,
            Violation::LastNameRequired,
            Violation::PasswordTooShort { min: 1 },
            Violation::PasswordMismatch,
        ]
    );
}

#[test]
fn fields_and_messages_of_the_violations() {
    assert_eq!(Violation::FirstNameRequired.field(), "first_name");
    assert_eq!(Violation::FirstNameRequired.message(), "First name is required");
    assert_eq!(Violation::LastNameRequired.field(), "last_name");
    assert_eq!(Violation::LastNameRequired.message(), "Last name is required");
    assert_eq!(Violation::InvalidEmail.field(), "email");
    assert_eq!(Violation::InvalidEmail.message(), "Invalid email format");
    assert_eq!(Violation::PasswordTooShort { min: 6 }.field(), "password");
    assert_eq!(
        Violation::PasswordTooShort { min: 6 }.message(),
        "Password must be at least 6 characters"
    );
    assert_eq!(
        Violation::PasswordTooShort { min: 12 }.message(),
        "Password must be at least 12 characters"
    );
    assert_eq!(Violation::PasswordMismatch.field(), "confirm_password");
    assert_eq!(Violation::PasswordMismatch.message(), "Passwords do not match");
}

#[test]
fn rendering_joins_with_comma_and_space() {
    assert_eq!(render_violations(&vec![]), "");
    assert_eq!(
        render_violations(&vec![Violation::InvalidEmail, Violation::PasswordMismatch]),
        "email: Invalid email format, confirm_password: Passwords do not match"
    );
}

#[test]
fn numbers_in_decimal() {
    assert_eq!(to_decimal(0), "0");
    assert_eq!(to_decimal(7), "7");
    assert_eq!(to_decimal(10), "10");
    assert_eq!(to_decimal(404), "404");
    assert_eq!(to_decimal(65535), "65535");
    assert_eq!(to_decimal(1_234_567_890), "1234567890");
    assert_eq!(to_decimal(usize::MAX), usize::MAX.to_string());
}
