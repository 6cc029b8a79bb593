//! What a statement holds.
use crate::db::{Param, ParamView, Statement};
use crate::laws::replies::{is_value, lemma_is_statement};
use vstd::prelude::*;

verus! {

/// A new statement is its text and no value.
pub proof fn a_new_statement_is_its_text(sql: &str, res: Statement)
    requires
        call_ensures(Statement::new, (sql,), res),
    ensures
        res.sql@ == sql@,
        res.params@.len() == 0,
{
    lemma_is_statement(res, sql@, seq![]);
}

/// A value is bound behind those that a statement has, which stay as they are,
/// and so does the text.
pub proof fn a_value_is_bound_behind_the_others(
    st: Statement,
    param: Param,
    res: Statement,
    i: int,
    v: ParamView,
)
    requires
        call_ensures(Statement::bind, (st, param), res),
    ensures
        res.sql@ == st.sql@,
        res.params@.len() == st.params@.len() + 1,
        is_value(param, v) ==> is_value(res.params@.last(), v),
        0 <= i < st.params@.len() && is_value(st.params@[i], v) ==> is_value(res.params@[i], v),
{
    assert(res@.params.len() == res.params@.len());
    assert(st@.params.len() == st.params@.len());
    assert(res@.params.last() == res.params@.last()@);
    if 0 <= i < st.params@.len() {
        assert(res@.params[i] == res.params@[i]@);
        assert(st@.params[i] == st.params@[i]@);
    }
}

} // verus!
