//! What the log says of a response that reports an error.

use vstd::prelude::*;
use vstd::string::StringExecFns;
use crate::text::{decimal, to_decimal};

verus! {

/// Writes one line for every response with status 400 or above.
#[derive(Debug, Clone, Copy)]
pub struct ErrorLogger;

/// What reading the body of a response gave.
#[derive(Debug)]
pub enum BodyRead {
    /// The body, which is valid UTF-8.
    Text(String),
    /// The body is not valid UTF-8.
    Binary,
    /// The body could not be read, for this reason.
    Failed(String),
}

/// The reason phrase to write for a status that may have none.
pub open spec fn reason_text(reason: Option<&str>) -> Seq<char> {
    match reason {
        Some(phrase) => phrase@,
        None => "Unknown"@,
    }
}

/// What a line says of the body.
pub open spec fn body_text(body: BodyRead) -> Seq<char> {
    match body {
        BodyRead::Text(text) => "Body: "@ + text@,
        BodyRead::Binary => "Body: <binary data>"@,
        BodyRead::Failed(cause) => "Failed to read body: "@ + cause@,
    }
}

/// The line for one response:
/// `[ERROR] method uri -> code reason | ` and then what is known of the body.
pub open spec fn line_text(
    method: Seq<char>,
    uri: Seq<char>,
    code: u16,
    reason: Option<&str>,
    body: BodyRead,
) -> Seq<char> {
    "[ERROR] "@ + method + " "@ + uri + " -> "@ + decimal(code as nat) + " "@ + reason_text(reason)
        + " | "@ + body_text(body)
}

impl ErrorLogger {
    /// Whether a response with this status is logged: every status from 400.
    pub fn logs(&self, code: u16) -> (res: bool)
        ensures
            res == (code >= 400),
    {
        code >= 400
    }

    /// The line for one response that reports an error.
    pub fn line(
        &self,
        method: &str,
        uri: &str,
        code: u16,
        reason: Option<&str>,
        body: &BodyRead,
    ) -> (res: String)
        ensures
            res@ == line_text(method@, uri@, code, reason, *body),
    {
        let mut res = "[ERROR] ".to_owned();
        res.append(method);
        res.append(" ");
        res.append(uri);
        res.append(" -> ");
        let digits = to_decimal(code as usize);
        res.append(digits.as_str());
        res.append(" ");
        match reason {
            Some(phrase) => res.append(phrase),
            None => res.append("Unknown"),
        }
        res.append(" | ");
        match body {
            BodyRead::Text(text) => {
                res.append("Body: ");
                res.append(text.as_str());
            },
            BodyRead::Binary => {
                res.append("Body: <binary data>");
            },
            BodyRead::Failed(cause) => {
                res.append("Failed to read body: ");
                res.append(cause.as_str());
            },
        }
        assert(res@ =~= line_text(method@, uri@, code, reason, *body));
        res
    }

    /// What to write to the log for one response: a line if its status is 400
    /// or above, and nothing otherwise.
    pub fn on_response(
        &self,
        method: &str,
        uri: &str,
        code: u16,
        reason: Option<&str>,
        body: &BodyRead,
    ) -> (res: Option<String>)
        ensures
            code < 400 ==> res is None,
            code >= 400 ==> (res matches Some(line) && line@ == line_text(
                method@,
                uri@,
                code,
                reason,
                *body,
            )),
    {
        if self.logs(code) {
            Some(self.line(method, uri, code, reason, body))
        } else {
            None
        }
    }
}

} // verus!
