//! One error type for every handler, and one place that decides status codes.
use crate::db::{DbError, DbErrorView};
use crate::text::str_eq;
use vstd::prelude::*;

verus! {

/// Why a request is refused.
#[derive(Debug)]
pub enum Error {
    BadRequest(String),
    /// No credential, or one that does not verify. Deliberately does not
    /// distinguish the two: telling a caller that a token exists but is
    /// revoked confirms the token was real.
    Unauthorized,
    Forbidden(String),
    NotFound(&'static str),
    Conflict(String),
    TooLarge,
    /// A client past its limit on the install endpoints.
    TooManyRequests,
    Database(DbError),
}

/// A refusal, with strings as the characters they hold.
pub enum ErrorView {
    BadRequest(Seq<char>),
    Unauthorized,
    Forbidden(Seq<char>),
    NotFound(Seq<char>),
    Conflict(Seq<char>),
    TooLarge,
    TooManyRequests,
    Database(DbErrorView),
}

impl View for Error {
    type V = ErrorView;

    open spec fn view(&self) -> ErrorView {
        match self {
            Error::BadRequest(m) => ErrorView::BadRequest(m@),
            Error::Unauthorized => ErrorView::Unauthorized,
            Error::Forbidden(m) => ErrorView::Forbidden(m@),
            Error::NotFound(what) => ErrorView::NotFound(what@),
            Error::Conflict(m) => ErrorView::Conflict(m@),
            Error::TooLarge => ErrorView::TooLarge,
            Error::TooManyRequests => ErrorView::TooManyRequests,
            Error::Database(e) => ErrorView::Database(e@),
        }
    }
}

pub type Result<T> = std::result::Result<T, Error>;

/// What a handler returned, with a refusal as the characters it holds.
pub open spec fn verdict<T>(res: Result<T>) -> std::result::Result<T, ErrorView> {
    match res {
        Ok(t) => Ok(t),
        Err(e) => Err(e@),
    }
}

/// A handler refused, and this is why.
pub open spec fn refused<T>(res: Result<T>, why: ErrorView) -> bool {
    res matches Err(e) && e@ == why
}

impl From<DbError> for Error {
    fn from(e: DbError) -> (res: Self) {
        Error::Database(e)
    }
}

impl vstd::std_specs::convert::FromSpecImpl<DbError> for Error {
    open spec fn obeys_from_spec() -> bool {
        true
    }

    open spec fn from_spec(e: DbError) -> Self {
        Error::Database(e)
    }
}

// --- what the caller is told ------------------------------------------------

/// The answer to a refused request.
#[derive(Debug)]
pub struct ErrorResponse {
    pub status: u16,
    pub error: String,
}

impl ErrorView {
    /// What the refusal says of itself.
    pub open spec fn message(self) -> Seq<char> {
        match self {
            ErrorView::BadRequest(m) => m,
            ErrorView::Unauthorized => "authentication required"@,
            ErrorView::Forbidden(m) => m,
            ErrorView::NotFound(what) => what + " not found"@,
            ErrorView::Conflict(m) => m,
            ErrorView::TooLarge => "payload too large"@,
            ErrorView::TooManyRequests => "too many requests"@,
            ErrorView::Database(e) => e.message,
        }
    }

    /// The status it is answered with.
    pub open spec fn status(self) -> u16 {
        match self {
            ErrorView::BadRequest(_) => 400,
            ErrorView::Unauthorized => 401,
            ErrorView::Forbidden(_) => 403,
            ErrorView::NotFound(_) => 404,
            ErrorView::Conflict(_) => 409,
            ErrorView::TooLarge => 413,
            ErrorView::TooManyRequests => 429,
            ErrorView::Database(_) => 500,
        }
    }

    /// What the caller reads: the message, except that of a database failure,
    /// which is for the log alone.
    pub open spec fn told(self) -> Seq<char> {
        match self {
            ErrorView::Database(_) => "internal error"@,
            _ => self.message(),
        }
    }
}

impl Error {
    /// What the refusal says of itself.
    pub fn message(&self) -> (res: String)
        ensures
            res@ == self@.message(),
    {
        match self {
            Error::BadRequest(m) => m.clone(),
            Error::Unauthorized => "authentication required".to_owned(),
            Error::Forbidden(m) => m.clone(),
            Error::NotFound(what) => (*what).to_owned().concat(" not found"),
            Error::Conflict(m) => m.clone(),
            Error::TooLarge => "payload too large".to_owned(),
            Error::TooManyRequests => "too many requests".to_owned(),
            Error::Database(e) => e.message.clone(),
        }
    }

    /// The answer to the request.
    ///
    /// The message of a database failure is logged, never returned: it can
    /// carry table and column names, and a constraint name is a map of the
    /// schema.
    pub fn into_response(self) -> (res: ErrorResponse)
        ensures
            res.status == self@.status(),
            res.error@ == self@.told(),
    {
        let status: u16 = match &self {
            Error::BadRequest(_) => 400,
            Error::Unauthorized => 401,
            Error::Forbidden(_) => 403,
            Error::NotFound(_) => 404,
            Error::Conflict(_) => 409,
            Error::TooLarge => 413,
            Error::TooManyRequests => 429,
            Error::Database(_) => 500,
        };
        let error = match &self {
            Error::Database(_) => "internal error".to_owned(),
            _ => self.message(),
        };
        ErrorResponse { status, error }
    }
}

/// Whatever the database reported, the caller reads the same thing.
pub proof fn a_database_failure_tells_nothing(a: DbErrorView, b: DbErrorView)
    ensures
        ErrorView::Database(a).told() == ErrorView::Database(b).told(),
        ErrorView::Database(a).status() == ErrorView::Database(b).status(),
        ErrorView::Database(a).status() == 500,
{
}

// --- what a reply of the database means -------------------------------------

/// The code under which the database reports that a row would not be unique.
pub const UNIQUE_VIOLATION: &'static str = "23505";

/// A reply that has to be there: a failure of the database is passed on.
pub open spec fn answered<T>(
    reply: std::result::Result<T, DbError>,
) -> std::result::Result<T, ErrorView> {
    match reply {
        Ok(t) => Ok(t),
        Err(e) => Err(ErrorView::Database(e@)),
    }
}

/// A row that has to exist: without one, `what` was not found.
pub open spec fn found<T>(
    reply: std::result::Result<Option<T>, DbError>,
    what: Seq<char>,
) -> std::result::Result<T, ErrorView> {
    match reply {
        Ok(Some(t)) => Ok(t),
        Ok(None) => Err(ErrorView::NotFound(what)),
        Err(e) => Err(ErrorView::Database(e@)),
    }
}

/// A write that has to touch a row: if it touched none, `what` was not found.
pub open spec fn touched(
    reply: std::result::Result<u64, DbError>,
    what: Seq<char>,
) -> std::result::Result<(), ErrorView> {
    match reply {
        Ok(n) => if n == 0 {
            Err(ErrorView::NotFound(what))
        } else {
            Ok(())
        },
        Err(e) => Err(ErrorView::Database(e@)),
    }
}

/// A failure that may be a lost race for a unique row: if it is, a conflict
/// the caller can retry.
pub open spec fn conflict_or(e: DbErrorView, message: Seq<char>) -> ErrorView {
    if e.code == Some(UNIQUE_VIOLATION@) {
        ErrorView::Conflict(message)
    } else {
        ErrorView::Database(e)
    }
}

/// A write that may lose a race for a unique row.
pub open spec fn contested<T>(
    reply: std::result::Result<T, DbError>,
    message: Seq<char>,
) -> std::result::Result<T, ErrorView> {
    match reply {
        Ok(t) => Ok(t),
        Err(e) => Err(conflict_or(e@, message)),
    }
}

/// A reply that has to be there.
pub fn expect_answer<T>(reply: std::result::Result<T, DbError>) -> (res: Result<T>)
    ensures
        verdict(res) == answered(reply),
{
    match reply {
        Ok(t) => Ok(t),
        Err(e) => Err(Error::from(e)),
    }
}

/// A row that has to exist.
pub fn expect_row<T>(
    reply: std::result::Result<Option<T>, DbError>,
    what: &'static str,
) -> (res: Result<T>)
    ensures
        verdict(res) == found(reply, what@),
{
    match reply {
        Ok(Some(t)) => Ok(t),
        Ok(None) => Err(Error::NotFound(what)),
        Err(e) => Err(Error::from(e)),
    }
}

/// A write that has to touch a row.
pub fn expect_touched(
    reply: std::result::Result<u64, DbError>,
    what: &'static str,
) -> (res: Result<()>)
    ensures
        verdict(res) == touched(reply, what@),
{
    match reply {
        Ok(n) => if n == 0 {
            Err(Error::NotFound(what))
        } else {
            Ok(())
        },
        Err(e) => Err(Error::from(e)),
    }
}

/// Turn a unique violation into a 409 with a caller-facing message.
///
/// Used where a race is legitimate rather than a bug -- two publishes landing
/// on the same version number, say -- so the caller can retry instead of
/// reading a 500.
pub fn on_unique_violation(e: DbError, message: &str) -> (res: Error)
    ensures
        res@ == conflict_or(e@, message@),
{
    let unique = match &e.code {
        Some(code) => str_eq(code.as_str(), UNIQUE_VIOLATION),
        None => false,
    };
    if unique {
        Error::Conflict(message.to_owned())
    } else {
        Error::Database(e)
    }
}

/// A write that may lose a race for a unique row.
pub fn expect_unique<T>(
    reply: std::result::Result<T, DbError>,
    message: &str,
) -> (res: Result<T>)
    ensures
        verdict(res) == contested(reply, message@),
{
    match reply {
        Ok(t) => Ok(t),
        Err(e) => Err(on_unique_violation(e, message)),
    }
}

/// Whatever is missing is answered 404 and named, whether it was to be read or
/// to be written. Nothing else a database can reply to a read or a write is.
pub proof fn what_is_missing_is_not_found<T>(
    read: std::result::Result<Option<T>, DbError>,
    written: std::result::Result<u64, DbError>,
    what: Seq<char>,
)
    ensures
        (read matches Ok(row) && row is None) <==> found(read, what)
            == Err::<T, ErrorView>(ErrorView::NotFound(what)),
        (written matches Ok(n) && n == 0) <==> touched(written, what)
            == Err::<(), ErrorView>(ErrorView::NotFound(what)),
        ErrorView::NotFound(what).status() == 404,
        ErrorView::NotFound(what).told() == what + " not found"@,
{
}

/// A lost race is answered 409, never 500, so that the client retries.
pub proof fn a_lost_race_is_a_conflict(e: DbErrorView, message: Seq<char>)
    requires
        e.code == Some(UNIQUE_VIOLATION@),
    ensures
        conflict_or(e, message).status() == 409,
        conflict_or(e, message).told() == message,
{
}

} // verus!
