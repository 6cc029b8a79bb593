//! What a refused caller reads.
use crate::db::{copy_text, copy_texts, DbError};
use crate::error::{
    expect_answer, expect_row, expect_touched, expect_unique, on_unique_violation, Error,
    ErrorResponse, Result,
};
use crate::laws::replies::{follows, follows_race, follows_row, follows_touch};
use vstd::prelude::*;

verus! {

/// Every refusal has one status, and its words are those it was made with. Of
/// a failure of the database the caller reads nothing but that there was one.
pub proof fn a_refusal_is_answered(e: Error, message: String, res: ErrorResponse)
    requires
        call_ensures(Error::message, (&e,), message),
        call_ensures(Error::into_response, (e,), res),
    ensures
        match e {
            Error::BadRequest(m) => res.status == 400 && res.error@ == m@ && message@ == m@,
            Error::Unauthorized => res.status == 401 && res.error@ == "authentication required"@
                && message@ == "authentication required"@,
            Error::Forbidden(m) => res.status == 403 && res.error@ == m@ && message@ == m@,
            Error::NotFound(what) => res.status == 404 && res.error@ == what@ + " not found"@
                && message@ == what@ + " not found"@,
            Error::Conflict(m) => res.status == 409 && res.error@ == m@ && message@ == m@,
            Error::TooLarge => res.status == 413 && res.error@ == "payload too large"@ && message@
                == "payload too large"@,
            Error::TooManyRequests => res.status == 429 && res.error@ == "too many requests"@
                && message@ == "too many requests"@,
            Error::Database(d) => res.status == 500 && res.error@ == "internal error"@ && message@
                == d.message@,
        },
{
}

/// A reply that has to be there is handed on, and so is a failure.
pub proof fn a_reply_is_expected<T>(
    reply: std::result::Result<T, DbError>,
    res: Result<T>,
)
    requires
        call_ensures(expect_answer::<T>, (reply,), res),
    ensures
        follows(reply, res),
        reply matches Ok(t) ==> res == Ok::<T, Error>(t),
{
}

/// A row that has to exist is handed on, and without one it was not found.
pub proof fn a_row_is_expected<T>(
    reply: std::result::Result<Option<T>, DbError>,
    what: &'static str,
    res: Result<T>,
)
    requires
        call_ensures(expect_row::<T>, (reply, what), res),
    ensures
        follows_row(reply, res, what@),
        reply matches Ok(Some(t)) ==> res == Ok::<T, Error>(t),
{
}

/// A write that touches a row, however many, succeeds; one that touches none
/// found nothing.
pub proof fn a_touch_is_expected(
    reply: std::result::Result<u64, DbError>,
    what: &'static str,
    res: Result<()>,
)
    requires
        call_ensures(expect_touched, (reply, what), res),
    ensures
        follows_touch(reply, res, what@),
{
}

/// A write that loses a race for a unique row is a conflict in the words it was
/// given; no other failure is.
pub proof fn a_race_is_expected<T>(
    reply: std::result::Result<T, DbError>,
    message: &str,
    res: Result<T>,
)
    requires
        call_ensures(expect_unique::<T>, (reply, message), res),
    ensures
        follows_race(reply, res, message@),
        reply matches Ok(t) ==> res == Ok::<T, Error>(t),
{
}

/// Only the code for a row that would not be unique makes a conflict.
pub proof fn a_unique_violation_is_a_conflict(e: DbError, message: &str, res: Error)
    requires
        call_ensures(on_unique_violation, (e, message), res),
    ensures
        follows_race::<(), ()>(Err(e), Err(res), message@),
{
}

/// A copy is what it was taken of.
pub proof fn a_copy_is_the_same(
    text: Option<String>,
    texts: Vec<String>,
    copy: Option<String>,
    copies: Vec<String>,
)
    requires
        call_ensures(copy_text, (&text,), copy),
        call_ensures(copy_texts, (&texts,), copies),
    ensures
        copy == text,
        copies@ == texts@,
{
}

} // verus!
