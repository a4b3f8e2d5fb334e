//! User registration for a web backend: request validation, the
//! uniqueness-then-insert sequence against a user repository, credential
//! hashing, entity and response mapping, and the classification of every
//! outcome into an HTTP status and body.

pub mod config;
pub mod domain;
pub mod middleware;
pub mod state;
pub mod text;
pub mod usecase;

use vstd::prelude::*;

verus! {

/// Envelope of a response body: a status code with either data or a message.
#[derive(Debug)]
pub struct HttpResponse<T> {
    pub status: u16,
    pub data: Option<T>,
    pub message: Option<String>,
}

/// Body of every failed request: one client-safe sentence.
#[derive(Debug)]
pub struct ErrorResponse {
    pub error: String,
}

impl<T> HttpResponse<T> {
    /// Wraps `data` under status 200.
    pub fn success(data: T) -> (res: Self)
        ensures
            res.status == 200,
            res.data == Some(data),
            res.message is None,
    {
        HttpResponse { status: 200, data: Some(data), message: None }
    }

    /// Wraps `data` under status 201.
    pub fn created(data: T) -> (res: Self)
        ensures
            res.status == 201,
            res.data == Some(data),
            res.message is None,
    {
        HttpResponse { status: 201, data: Some(data), message: None }
    }
}

/// An envelope without data that carries `message` under `status`.
pub fn error_response(status: u16, message: String) -> (res: HttpResponse<()>)
    ensures
        res.status == status,
        res.data is None,
        res.message == Some(message),
{
    HttpResponse { status, data: None, message: Some(message) }
}

/// Where the connections to the user store come from.
pub trait ConnectionSource {
    /// A user repository over one connection.
    type Repository: domain::repository::user::UserRepository;

    /// Takes a connection for the time of one request, or none if none is to
    /// be had. The connection goes back when the repository is dropped.
    fn acquire(&mut self) -> Option<Self::Repository>;
}

/// One recorded failure: the status that answered the request, what failed,
/// and the cause.
#[derive(Debug)]
pub struct LogEntry {
    pub status: u16,
    pub message: String,
    pub error: String,
}

/// What a [`LogEntry`] is to the contracts.
pub struct LogEntryView {
    pub status: u16,
    pub message: Seq<char>,
    pub error: Seq<char>,
}

impl View for LogEntry {
    type V = LogEntryView;

    open spec fn view(&self) -> LogEntryView {
        LogEntryView { status: self.status, message: self.message@, error: self.error@ }
    }
}

/// Where the causes of failed requests are recorded.
///
/// A log that writes its entries away can say nothing of them afterwards. A
/// log that keeps them sets `keeps_entries`, and `entries` is then all that
/// was recorded in it.
pub trait ErrorLog {
    /// Every entry of the log, oldest first. It means something only under
    /// `keeps_entries`.
    open spec fn entries(&self) -> Seq<LogEntryView> {
        Seq::empty()
    }

    /// This log keeps what is recorded in it. Unless an implementation says
    /// so, it does not.
    open spec fn keeps_entries(&self) -> bool {
        false
    }

    /// Records one failure: the status that answered it, what failed, and the
    /// cause. A log that keeps its entries holds this one more, after those
    /// it held.
    fn log_error(&mut self, status: u16, message: &str, error: &str)
        ensures
            final(self).keeps_entries() == old(self).keeps_entries(),
            old(self).keeps_entries() ==> final(self).entries() == old(self).entries().push(
                (LogEntryView { status, message: message@, error: error@ }),
            ),
    ;
}

/// Between `before` and `after`, exactly `entry` was recorded in a log, as far
/// as the log keeps its entries.
pub open spec fn recorded<L: ErrorLog>(before: L, after: L, entry: LogEntryView) -> bool {
    &&& after.keeps_entries() == before.keeps_entries()
    &&& before.keeps_entries() ==> after.entries() == before.entries().push(entry)
}

/// A log that keeps its entries in memory.
pub struct MemoryLog {
    kept: Vec<LogEntry>,
}

impl MemoryLog {
    /// A log without entries.
    pub fn new() -> (res: Self)
        ensures
            res.entries() == Seq::<LogEntryView>::empty(),
    {
        let res = MemoryLog { kept: Vec::new() };
        assert(res.kept@.map_values(|e: LogEntry| e@) =~= Seq::<LogEntryView>::empty());
        res
    }

    /// The entries, oldest first.
    pub fn list(&self) -> (res: &Vec<LogEntry>)
        ensures
            res@.map_values(|e: LogEntry| e@) == self.entries(),
    {
        &self.kept
    }
}

impl ErrorLog for MemoryLog {
    closed spec fn entries(&self) -> Seq<LogEntryView> {
        self.kept@.map_values(|e: LogEntry| e@)
    }

    open spec fn keeps_entries(&self) -> bool {
        true
    }

    fn log_error(&mut self, status: u16, message: &str, error: &str) {
        let entry = LogEntry { status, message: message.to_owned(), error: error.to_owned() };
        self.kept.push(entry);
        assert(self.kept@.map_values(|e: LogEntry| e@) =~= old(self).kept@.map_values(
            |e: LogEntry| e@,
        ).push(entry@));
    }
}

} // verus!
