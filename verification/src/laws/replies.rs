//! The words the other laws share: what a statement holds, and how a reply of
//! the database shows in an answer.
use crate::db::{bound, DbError, Param, ParamView, Statement};
use crate::error::{Error, Result};
use vstd::prelude::*;

verus! {

/// A bound value holds just this.
pub open spec fn is_value(p: Param, v: ParamView) -> bool {
    match v {
        ParamView::Text(x) => p matches Param::Text(s) && s@ == x,
        ParamView::MaybeText(x) => p matches Param::MaybeText(s) && s.deep_view() == x,
        ParamView::Texts(x) => p matches Param::Texts(s) && s.deep_view() == x,
        ParamView::MaybeTexts(x) => p matches Param::MaybeTexts(s) && s.deep_view() == x,
        ParamView::Int(x) => p matches Param::Int(n) && n == x,
        ParamView::BigInt(x) => p matches Param::BigInt(n) && n == x,
        ParamView::Bool(x) => p matches Param::Bool(b) && b == x,
        ParamView::MaybeBool(x) => p matches Param::MaybeBool(b) && b == x,
        ParamView::Id(x) => p matches Param::Id(id) && id == x,
    }
}

/// A statement is this text with these values, in this order, and no others.
pub open spec fn is_statement(st: Statement, sql: Seq<char>, values: Seq<ParamView>) -> bool {
    &&& st.sql@ == sql
    &&& st.params@.len() == values.len()
    &&& forall|i: int| 0 <= i < values.len() ==> is_value(st.params@[i], #[trigger] values[i])
}

pub(crate) proof fn lemma_is_statement(st: Statement, sql: Seq<char>, values: Seq<ParamView>)
    requires
        st@ == bound(sql, values),
    ensures
        is_statement(st, sql, values),
{
    assert(st@.params.len() == st.params@.len());
    assert forall|i: int| 0 <= i < values.len() implies is_value(
        st.params@[i],
        #[trigger] values[i],
    ) by {
        assert(st@.params[i] == st.params@[i]@);
    }
}

/// A refusal with these words, of a request that is malformed.
pub open spec fn is_bad_request<T>(res: Result<T>, message: Seq<char>) -> bool {
    res matches Err(Error::BadRequest(m)) && m@ == message
}

/// A refusal that says that `what` was not found.
pub open spec fn is_not_found<T>(res: Result<T>, what: Seq<char>) -> bool {
    res matches Err(Error::NotFound(w)) && w@ == what
}

/// A refusal with these words, of a request that lost a race.
pub open spec fn is_conflict<T>(res: Result<T>, message: Seq<char>) -> bool {
    res matches Err(Error::Conflict(m)) && m@ == message
}

/// A failure of the database, handed on as it was reported.
pub open spec fn is_failure<T>(res: Result<T>, e: DbError) -> bool {
    res matches Err(Error::Database(d)) && d.code.deep_view() == e.code.deep_view() && d.message@
        == e.message@
}

/// The answer succeeds exactly if the database did, and hands its failure on
/// otherwise.
pub open spec fn follows<T, U>(reply: std::result::Result<T, DbError>, res: Result<U>) -> bool {
    &&& reply is Ok <==> res is Ok
    &&& reply matches Err(e) ==> is_failure(res, e)
}

/// The answer succeeds exactly if there was a row; without one `what` was not
/// found, and a failure is handed on.
pub open spec fn follows_row<T, U>(
    reply: std::result::Result<Option<T>, DbError>,
    res: Result<U>,
    what: Seq<char>,
) -> bool {
    &&& (reply is Ok && reply->Ok_0 is Some) <==> res is Ok
    &&& (reply is Ok && reply->Ok_0 is None) ==> is_not_found(res, what)
    &&& reply matches Err(e) ==> is_failure(res, e)
}

/// The answer succeeds exactly if a row was touched; if none was, `what` was
/// not found, and a failure is handed on.
pub open spec fn follows_touch<U>(
    reply: std::result::Result<u64, DbError>,
    res: Result<U>,
    what: Seq<char>,
) -> bool {
    &&& (reply is Ok && reply->Ok_0 > 0) <==> res is Ok
    &&& (reply is Ok && reply->Ok_0 == 0) ==> is_not_found(res, what)
    &&& reply matches Err(e) ==> is_failure(res, e)
}

/// The answer succeeds exactly if the database did; a row that would not be
/// unique is a conflict, and any other failure is handed on.
pub open spec fn follows_race<T, U>(
    reply: std::result::Result<T, DbError>,
    res: Result<U>,
    message: Seq<char>,
) -> bool {
    &&& reply is Ok <==> res is Ok
    &&& reply matches Err(e) ==> {
        if e.code.deep_view() == Some("23505"@) {
            is_conflict(res, message)
        } else {
            is_failure(res, e)
        }
    }
}

} // verus!
