//! The registration request as it arrives.

use vstd::prelude::*;

verus! {

/// A candidate account: profile, credential in plain text, and the optional
/// repetition of the credential.
#[derive(Debug)]
pub struct Request {
    pub first_name: String,
    pub last_name: String,
    pub email: String,
    pub password: String,
    pub confirm_password: Option<String>,
}

/// What a [`Request`] is to the contracts.
pub struct RequestView {
    pub first_name: Seq<char>,
    pub last_name: Seq<char>,
    pub email: Seq<char>,
    pub password: Seq<char>,
    pub confirm_password: Option<Seq<char>>,
}

impl View for Request {
    type V = RequestView;

    open spec fn view(&self) -> RequestView {
        RequestView {
            first_name: self.first_name@,
            last_name: self.last_name@,
            email: self.email@,
            password: self.password@,
            confirm_password: match self.confirm_password {
                Some(c) => Some(c@),
                None => None,
            },
        }
    }
}

} // verus!
