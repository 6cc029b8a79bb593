//! What the probes answer.
use crate::db::{DbError, Statement};
use crate::laws::replies::{is_statement, lemma_is_statement};
use crate::models::Status;
use crate::routes::health::{live, probe, ready, Readiness};
use vstd::prelude::*;

verus! {

/// Liveness is always answered. Readiness is what the database answers: 200 if it
/// does, whatever it says, and 503 if it does not.
pub proof fn the_probes_are_answered(
    up: Status,
    st: Statement,
    reply: std::result::Result<u64, DbError>,
    res: Readiness,
)
    requires
        call_ensures(live, (), up),
        call_ensures(probe, (), st),
        call_ensures(ready, (reply,), res),
    ensures
        up.status@ == "ok"@,
        reply is Ok ==> res.code == 200 && res.body.status@ == "ready"@,
        reply is Err ==> res.code == 503 && res.body.status@ == "database unavailable"@,
        is_statement(
            st,
            "SELECT 1"@,
            seq![],
        ),
{
    lemma_is_statement(
        st,
        "SELECT 1"@,
        seq![],
    );
}

} // verus!
