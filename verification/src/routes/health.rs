//! Liveness and readiness.
//!
//! Split because they answer different questions. Liveness says the process is
//! up; readiness says it can serve, which means the database is reachable. A
//! liveness probe that touched the database would restart the pod every time
//! Postgres was briefly unavailable -- during a node drain, for instance --
//! which is exactly when restarting helps least.
use crate::db::{bound, DbError, Statement};
use crate::models::Status;
use vstd::prelude::*;

verus! {

pub const PROBE: &'static str = "SELECT 1";

/// The answer to a readiness probe.
#[derive(Debug)]
pub struct Readiness {
    pub code: u16,
    pub body: Status,
}

/// The process is up. Nothing else is asked.
pub fn live() -> (res: Status)
    ensures
        res.status@ == "ok"@,
{
    Status { status: "ok" }
}

/// What a readiness probe asks the database.
pub fn probe() -> (res: Statement)
    ensures
        res@ == bound(PROBE@, seq![]),
{
    Statement::new(PROBE)
}

/// Whether the service can serve: whether the database answered.
pub fn ready(reply: std::result::Result<u64, DbError>) -> (res: Readiness)
    ensures
        reply is Ok ==> res.code == 200 && res.body.status@ == "ready"@,
        reply is Err ==> res.code == 503 && res.body.status@ == "database unavailable"@,
{
    match reply {
        Ok(_) => Readiness { code: 200, body: Status { status: "ready" } },
        Err(_) => Readiness { code: 503, body: Status { status: "database unavailable" } },
    }
}

} // verus!
