//! Field rules of a registration request. Every rule is checked on every
//! request, and the violations come out in the order of the fields.

use vstd::prelude::*;
use vstd::string::StringExecFns;
use vstd::string::StrSliceExecFns;
use crate::text::{decimal, to_decimal};
use crate::usecase::auth::register::dto::{Request, RequestView};

verus! {

/// One broken field rule.
#[derive(Debug, Clone, Copy, PartialEq, Eq, Structural)]
pub enum Violation {
    FirstNameRequired,
    LastNameRequired,
    InvalidEmail,
    PasswordTooShort { min: usize },
    PasswordMismatch,
}

/// Whether the `validator` crate accepts these characters as an email address:
/// the address syntax of HTML5 forms, with bounds on the length of both parts
/// and with internationalised domain names.
pub uninterp spec fn well_formed_email(email: Seq<char>) -> bool;

/// Calls `validator::ValidateEmail::validate_email` on a string slice. The
/// verdict is a function of the characters alone; it is never favourable for
/// a string without `@`.
#[verifier::external_body]
fn email_is_well_formed(email: &str) -> (ok: bool)
    ensures
        ok == well_formed_email(email@),
        ok ==> email@.contains('@'),
{
    validator::ValidateEmail::validate_email(&email)
}

impl Violation {
    /// The name of the field that broke the rule.
    pub open spec fn field_name(self) -> Seq<char> {
        match self {
            Violation::FirstNameRequired => "first_name"@,
            Violation::LastNameRequired => "last_name"@,
            Violation::InvalidEmail => "email"@,
            Violation::PasswordTooShort { .. } => "password"@,
            Violation::PasswordMismatch => "confirm_password"@,
        }
    }

    /// The sentence that tells a client what is wrong with the field.
    pub open spec fn message_text(self) -> Seq<char> {
        match self {
            Violation::FirstNameRequired => "First name is required"@,
            Violation::LastNameRequired => "Last name is required"@,
            Violation::InvalidEmail => "Invalid email format"@,
            Violation::PasswordTooShort { min } => "Password must be at least "@ + decimal(
                min as nat,
            ) + " characters"@,
            Violation::PasswordMismatch => "Passwords do not match"@,
        }
    }

    /// The field and the sentence, with a colon between them.
    pub open spec fn entry(self) -> Seq<char> {
        self.field_name() + ": "@ + self.message_text()
    }

    /// The name of the field that broke the rule.
    pub fn field(&self) -> (res: &'static str)
        ensures
            res@ == self.field_name(),
    {
        match self {
            Violation::FirstNameRequired => "first_name",
            Violation::LastNameRequired => "last_name",
            Violation::InvalidEmail => "email",
            Violation::PasswordTooShort { .. } => "password",
            Violation::PasswordMismatch => "confirm_password",
        }
    }

    /// The sentence that tells a client what is wrong with the field.
    pub fn message(&self) -> (res: String)
        ensures
            res@ == self.message_text(),
    {
        match self {
            Violation::FirstNameRequired => "First name is required".to_owned(),
            Violation::LastNameRequired => "Last name is required".to_owned(),
            Violation::InvalidEmail => "Invalid email format".to_owned(),
            Violation::PasswordTooShort { min } => {
                let mut res = "Password must be at least ".to_owned();
                let digits = to_decimal(*min);
                res.append(digits.as_str());
                res.append(" characters");
                res
            },
            Violation::PasswordMismatch => "Passwords do not match".to_owned(),
        }
    }
}

/// The violations as one sentence for the client: each as `field: message`,
/// with a comma and a space between two of them.
pub open spec fn rendered(violations: Seq<Violation>) -> Seq<char>
    decreases violations.len(),
{
    if violations.len() == 0 {
        Seq::empty()
    } else if violations.len() == 1 {
        violations[0].entry()
    } else {
        rendered(violations.drop_last()) + ", "@ + violations.last().entry()
    }
}

/// Renders the violations as one sentence for the client.
pub fn render_violations(violations: &Vec<Violation>) -> (res: String)
    ensures
        res@ == rendered(violations@),
{
    let mut res = String::new();
    let mut i: usize = 0;
    assert(violations@.take(0) =~= Seq::<Violation>::empty());
    while i < violations.len()
        invariant
            i <= violations.len(),
            res@ == rendered(violations@.take(i as int)),
        decreases violations.len() - i,
    {
        let ghost before = violations@.take(i as int);
        let ghost after = violations@.take(i + 1);
        assert(after.drop_last() =~= before);
        assert(after.last() == violations@[i as int]);
        if i > 0 {
            res.append(", ");
        }
        res.append(violations[i].field());
        res.append(": ");
        let message = violations[i].message();
        res.append(message.as_str());
        assert(res@ =~= rendered(after)) by {
            if i == 0 {
                assert(after[0] == violations@[0]);
                assert(before.len() == 0);
            }
        }
        i = i + 1;
    }
    assert(violations@.take(i as int) =~= violations@);
    res
}

/// The sequence that holds `violation` if `broken`, and nothing otherwise.
pub open spec fn listed_if(broken: bool, violation: Violation) -> Seq<Violation> {
    if broken {
        seq![violation]
    } else {
        Seq::empty()
    }
}

/// The first name is not empty.
pub open spec fn first_name_ok(req: RequestView) -> bool {
    req.first_name.len() >= 1
}

/// The last name is not empty.
pub open spec fn last_name_ok(req: RequestView) -> bool {
    req.last_name.len() >= 1
}

/// The password has at least `min` characters.
pub open spec fn password_ok(req: RequestView, min: usize) -> bool {
    req.password.len() >= min
}

/// The repetition of the password, where there is one, equals the password.
pub open spec fn confirmation_ok(req: RequestView) -> bool {
    req.confirm_password matches Some(repeated) ==> repeated == req.password
}

/// The violations of `req`, in the order of the fields, where `email_ok` is
/// the verdict on the syntax of its email.
pub open spec fn violations_given(req: RequestView, email_ok: bool, min: usize) -> Seq<
    Violation,
> {
    listed_if(!first_name_ok(req), Violation::FirstNameRequired) + listed_if(
        !last_name_ok(req),
        Violation::LastNameRequired,
    ) + listed_if(!email_ok, Violation::InvalidEmail) + listed_if(
        !password_ok(req, min),
        Violation::PasswordTooShort { min },
    ) + listed_if(!confirmation_ok(req), Violation::PasswordMismatch)
}

/// The violations of `req`, in the order of the fields.
pub open spec fn violations_of(req: RequestView, min: usize) -> Seq<Violation> {
    violations_given(req, well_formed_email(req.email), min)
}

/// `req` breaks no rule.
pub open spec fn valid(req: RequestView, min: usize) -> bool {
    &&& first_name_ok(req)
    &&& last_name_ok(req)
    &&& well_formed_email(req.email)
    &&& password_ok(req, min)
    &&& confirmation_ok(req)
}

/// Checks every rule on `req`, given the verdict on the syntax of its email,
/// and lists the broken ones in the order of the fields.
pub fn check_fields(req: &Request, email_ok: bool, min: usize) -> (res: Vec<Violation>)
    ensures
        res@ == violations_given(req@, email_ok, min),
{
    let mut res: Vec<Violation> = Vec::new();
    if req.first_name.as_str().is_empty() {
        res.push(Violation::FirstNameRequired);
    }
    if req.last_name.as_str().is_empty() {
        res.push(Violation::LastNameRequired);
    }
    if !email_ok {
        res.push(Violation::InvalidEmail);
    }
    if req.password.as_str().unicode_len() < min {
        res.push(Violation::PasswordTooShort { min });
    }
    let confirmed = match &req.confirm_password {
        Some(repeated) => *repeated == req.password,
        None => true,
    };
    if !confirmed {
        res.push(Violation::PasswordMismatch);
    }
    assert(res@ =~= violations_given(req@, email_ok, min));
    res
}

impl Request {
    /// Checks every field rule, with `min` as the least length of a password
    /// in characters. Succeeds exactly when no rule is broken, and lists every
    /// broken rule otherwise.
    pub fn validate(&self, min: usize) -> (res: Result<(), Vec<Violation>>)
        ensures
            res is Ok <==> valid(self@, min),
            res matches Err(violations) ==> violations@ == violations_of(self@, min)
                && violations@.len() > 0,
    {
        let email_ok = email_is_well_formed(self.email.as_str());
        let violations = check_fields(self, email_ok, min);
        if violations.len() == 0 {
            Ok(())
        } else {
            Err(violations)
        }
    }
}

} // verus!
