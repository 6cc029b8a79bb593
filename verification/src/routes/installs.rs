//! Install records.
//!
//! One row per (workflow, installation), never a counter. The schema is
//! explicit about this and it is worth restating: a stored count cannot be
//! corrected, cannot be narrowed to installs still alive, and is trivially
//! inflated by anyone in a loop. Rows can be counted, aged out, and
//! deduplicated after the fact.
//!
//! `last_seen_at` is refreshed on every call so a count can later be limited
//! to harnesses that still exist.
//!
//! Neither endpoint asks for a credential, so both ask the limiter first.
use crate::db::{bound, DbError, Param, ParamView, Statement, StatementView};
use crate::error::{
    answered, expect_answer, expect_row, expect_touched, found, refused, touched, Error, ErrorView,
    Result,
};
use crate::headers::text_under;
use crate::models::{RecordInstall, Status};
use crate::ratelimit::{
    client_key, client_of, RateLimiter, CF_CONNECTING_IP, X_FORWARDED_FOR,
};
use crate::routes::workflows::{lookup_of, resolved, workflow_id};
use axum::http::{HeaderMap, HeaderValue};
use uuid::Uuid;
use vstd::prelude::*;

verus! {

pub const SELECT_KNOWN_VERSION: &'static str =
    "SELECT version FROM registry_versions WHERE workflow_id = $1 AND version = $2";

/// A second record of the same installation refreshes the first: it takes the
/// new version and counts as seen now.
pub const UPSERT_INSTALL: &'static str =
    "INSERT INTO registry_installs (workflow_id, installation_id, version)
         VALUES ($1, $2, $3)
         ON CONFLICT (workflow_id, installation_id)
         DO UPDATE SET version = EXCLUDED.version, last_seen_at = now()";

pub const DELETE_INSTALL: &'static str =
    "DELETE FROM registry_installs WHERE workflow_id = $1 AND installation_id = $2";

// --- the limit --------------------------------------------------------------

/// What the limiter said of the client behind a request. Only asking the
/// limiter makes one, and a write uses it up.
pub struct Admission {
    granted: bool,
}

/// The client a request is counted under.
pub open spec fn client_behind(
    headers: HeaderMap<HeaderValue>,
    socket: Option<Seq<char>>,
) -> Seq<char> {
    client_of(
        text_under(headers, CF_CONNECTING_IP@),
        text_under(headers, X_FORWARDED_FOR@),
        socket,
    )
}

/// Ask the limiter whether the client behind a request is within its limit, as
/// of now. The request counts as one hit of that client.
pub fn check_client(
    limiter: &mut RateLimiter,
    headers: &HeaderMap<HeaderValue>,
    socket: Option<&str>,
) -> (res: Admission)
    requires
        old(limiter).wf(),
    ensures
        final(limiter).wf(),
        old(limiter)@.counts(
            client_behind(*headers, socket.deep_view()),
            final(limiter)@,
            res.granted(),
        ),
{
    let key = client_key(headers, socket);
    Admission { granted: limiter.check(key.as_str()) }
}

/// What the limiter said, if it could be asked at all. One that a crashed
/// holder left locked fails open: it protects a counter's integrity, and
/// letting it take the whole endpoint down would be the more serious failure.
pub fn unless_poisoned(checked: Option<Admission>) -> (res: Admission)
    ensures
        match checked {
            Some(admission) => res == admission,
            None => res.granted(),
        },
{
    match checked {
        Some(admission) => admission,
        None => Admission { granted: true },
    }
}

impl Admission {
    /// Whether the client is within its limit.
    pub closed spec fn granted(&self) -> bool {
        self.granted
    }

    fn required(self) -> (res: Result<()>)
        ensures
            self.granted() ==> res is Ok,
            !self.granted() ==> refused(res, ErrorView::TooManyRequests),
    {
        if self.granted {
            Ok(())
        } else {
            Err(Error::TooManyRequests)
        }
    }
}

// --- recording --------------------------------------------------------------

/// An install to be recorded, its workflow to be found.
pub struct RecordLookup {
    slug: String,
    body: RecordInstall,
}

/// An install to be recorded, its version to be found.
pub struct RecordVersion {
    workflow: Uuid,
    body: RecordInstall,
}

/// An install of a version that exists, to be written.
pub struct RecordWrite {
    workflow: Uuid,
    body: RecordInstall,
}

/// The statement that finds a version of a workflow.
pub open spec fn known_of(workflow: Uuid, version: i32) -> StatementView {
    bound(SELECT_KNOWN_VERSION@, seq![ParamView::Id(workflow), ParamView::Int(version)])
}

/// The statement that writes an install.
pub open spec fn install_of(workflow: Uuid, body: RecordInstall) -> StatementView {
    bound(
        UPSERT_INSTALL@,
        seq![
            ParamView::Id(workflow),
            ParamView::Id(body.installation_id),
            ParamView::Int(body.version),
        ],
    )
}

/// Record or refresh an install, if the limiter lets the client through.
pub fn record(admission: Admission, slug: String, body: RecordInstall) -> (res: Result<
    RecordLookup,
>)
    ensures
        if admission.granted() {
            res matches Ok(next) && next.slug() == slug@ && next.body() == body
        } else {
            refused(res, ErrorView::TooManyRequests)
        },
{
    admission.required()?;
    Ok(RecordLookup { slug, body })
}

impl RecordLookup {
    pub closed spec fn slug(&self) -> Seq<char> {
        self.slug@
    }

    pub closed spec fn body(&self) -> RecordInstall {
        self.body
    }

    pub fn statement(&self) -> (res: Statement)
        ensures
            res@ == lookup_of(self.slug()),
    {
        workflow_id(self.slug.as_str())
    }

    pub fn found(self, reply: std::result::Result<Option<Uuid>, DbError>) -> (res: Result<
        RecordVersion,
    >)
        ensures
            match found(reply, "workflow"@) {
                Ok(id) => res matches Ok(next) && next.workflow() == id && next.body()
                    == self.body(),
                Err(e) => refused(res, e),
            },
    {
        let workflow = resolved(reply)?;
        Ok(RecordVersion { workflow, body: self.body })
    }
}

impl RecordVersion {
    pub closed spec fn workflow(&self) -> Uuid {
        self.workflow
    }

    pub closed spec fn body(&self) -> RecordInstall {
        self.body
    }

    pub fn statement(&self) -> (res: Statement)
        ensures
            res@ == known_of(self.workflow(), self.body().version),
    {
        let res = Statement::new(SELECT_KNOWN_VERSION).bind(Param::Id(self.workflow)).bind(
            Param::Int(self.body.version),
        );
        assert(res@.params =~= known_of(self.workflow(), self.body().version).params);
        res
    }

    /// The version must exist. Otherwise a typo silently records an install of
    /// something that was never published, and the number is quietly wrong.
    pub fn known(self, reply: std::result::Result<Option<i32>, DbError>) -> (res: Result<
        RecordWrite,
    >)
        ensures
            match found(reply, "version"@) {
                Ok(_) => res matches Ok(next) && next.workflow() == self.workflow() && next.body()
                    == self.body(),
                Err(e) => refused(res, e),
            },
    {
        expect_row(reply, "version")?;
        Ok(RecordWrite { workflow: self.workflow, body: self.body })
    }
}

impl RecordWrite {
    pub closed spec fn workflow(&self) -> Uuid {
        self.workflow
    }

    pub closed spec fn body(&self) -> RecordInstall {
        self.body
    }

    pub fn statement(&self) -> (res: Statement)
        ensures
            res@ == install_of(self.workflow(), self.body()),
    {
        let res = Statement::new(UPSERT_INSTALL).bind(Param::Id(self.workflow)).bind(
            Param::Id(self.body.installation_id),
        ).bind(Param::Int(self.body.version));
        assert(res@.params =~= install_of(self.workflow(), self.body()).params);
        res
    }

    pub fn written(self, reply: std::result::Result<u64, DbError>) -> (res: Result<Status>)
        ensures
            match answered(reply) {
                Ok(_) => res matches Ok(done) && done.status@ == "recorded"@,
                Err(e) => refused(res, e),
            },
    {
        expect_answer(reply)?;
        Ok(Status { status: "recorded" })
    }
}

// --- forgetting -------------------------------------------------------------

/// An install to be forgotten, its workflow to be found.
pub struct ForgetLookup {
    slug: String,
    installation_id: Uuid,
}

/// An install to be forgotten.
pub struct ForgetWrite {
    workflow: Uuid,
    installation_id: Uuid,
}

/// The statement that deletes an install.
pub open spec fn forgetting_of(workflow: Uuid, installation_id: Uuid) -> StatementView {
    bound(DELETE_INSTALL@, seq![ParamView::Id(workflow), ParamView::Id(installation_id)])
}

/// Forget an install, if the limiter lets the client through.
///
/// Without this the count only ever rises, and a harness that removes a
/// workflow would have no way to say so.
pub fn forget(admission: Admission, slug: String, installation_id: Uuid) -> (res: Result<
    ForgetLookup,
>)
    ensures
        if admission.granted() {
            res matches Ok(next) && next.slug() == slug@ && next.installation_id()
                == installation_id
        } else {
            refused(res, ErrorView::TooManyRequests)
        },
{
    admission.required()?;
    Ok(ForgetLookup { slug, installation_id })
}

impl ForgetLookup {
    pub closed spec fn slug(&self) -> Seq<char> {
        self.slug@
    }

    pub closed spec fn installation_id(&self) -> Uuid {
        self.installation_id
    }

    pub fn statement(&self) -> (res: Statement)
        ensures
            res@ == lookup_of(self.slug()),
    {
        workflow_id(self.slug.as_str())
    }

    pub fn found(self, reply: std::result::Result<Option<Uuid>, DbError>) -> (res: Result<
        ForgetWrite,
    >)
        ensures
            match found(reply, "workflow"@) {
                Ok(id) => res matches Ok(next) && next.workflow() == id && next.installation_id()
                    == self.installation_id(),
                Err(e) => refused(res, e),
            },
    {
        let workflow = resolved(reply)?;
        Ok(ForgetWrite { workflow, installation_id: self.installation_id })
    }
}

impl ForgetWrite {
    pub closed spec fn workflow(&self) -> Uuid {
        self.workflow
    }

    pub closed spec fn installation_id(&self) -> Uuid {
        self.installation_id
    }

    pub fn statement(&self) -> (res: Statement)
        ensures
            res@ == forgetting_of(self.workflow(), self.installation_id()),
    {
        let res = Statement::new(DELETE_INSTALL).bind(Param::Id(self.workflow)).bind(
            Param::Id(self.installation_id),
        );
        assert(res@.params =~= forgetting_of(self.workflow(), self.installation_id()).params);
        res
    }

    /// A repeated uninstall is 404 rather than a silent success: it did not
    /// delete anything.
    pub fn deleted(self, reply: std::result::Result<u64, DbError>) -> (res: Result<Status>)
        ensures
            match touched(reply, "install"@) {
                Ok(_) => res matches Ok(done) && done.status@ == "forgotten"@,
                Err(e) => refused(res, e),
            },
    {
        expect_touched(reply, "install")?;
        Ok(Status { status: "forgotten" })
    }
}

/// An uninstall succeeds exactly when it deleted something: a repeated one is
/// not found, 404, never a silent success.
pub proof fn a_repeated_uninstall_is_not_found(deleted: u64)
    ensures
        touched(Ok(deleted), "install"@) is Ok <==> deleted > 0,
        deleted == 0 ==> touched(Ok(deleted), "install"@) == Err::<(), ErrorView>(
            ErrorView::NotFound("install"@),
        ),
        ErrorView::NotFound("install"@).status() == 404,
{
}

/// There is one row for each workflow and installation. Two records of one
/// installation bind the same workflow and the same installation to the
/// columns that may not repeat, so the second meets the row of the first: it
/// takes the new version over, and counts as seen now. An uninstall deletes the
/// row of the same two values.
pub proof fn a_repeated_record_refreshes_its_row(
    workflow: Uuid,
    first: RecordInstall,
    second: RecordInstall,
)
    requires
        first.installation_id == second.installation_id,
    ensures
        install_of(workflow, first).sql == install_of(workflow, second).sql,
        install_of(workflow, first).params.take(2) == install_of(workflow, second).params.take(2),
        install_of(workflow, second).params[2] == ParamView::Int(second.version),
        forgetting_of(workflow, first.installation_id).params == install_of(
            workflow,
            first,
        ).params.take(2),
        UPSERT_INSTALL@
            == "INSERT INTO registry_installs (workflow_id, installation_id, version)"@
            + "\n         VALUES ($1, $2, $3)"@
            + "\n         ON CONFLICT (workflow_id, installation_id)"@
            + "\n         DO UPDATE SET version = EXCLUDED.version, last_seen_at = now()"@,
        DELETE_INSTALL@ == "DELETE FROM registry_installs"@
            + " WHERE workflow_id = $1 AND installation_id = $2"@,
{
    assert(install_of(workflow, first).params.take(2) =~= install_of(
        workflow,
        second,
    ).params.take(2));
    assert(forgetting_of(workflow, first.installation_id).params =~= install_of(
        workflow,
        first,
    ).params.take(2));
    reveal_strlit("INSERT INTO registry_installs (workflow_id, installation_id, version)");
    reveal_strlit("\n         VALUES ($1, $2, $3)");
    reveal_strlit("\n         ON CONFLICT (workflow_id, installation_id)");
    reveal_strlit("\n         DO UPDATE SET version = EXCLUDED.version, last_seen_at = now()");
    reveal_strlit(
        "INSERT INTO registry_installs (workflow_id, installation_id, version)
         VALUES ($1, $2, $3)
         ON CONFLICT (workflow_id, installation_id)
         DO UPDATE SET version = EXCLUDED.version, last_seen_at = now()",
    );
    assert(UPSERT_INSTALL@
        =~= "INSERT INTO registry_installs (workflow_id, installation_id, version)"@
        + "\n         VALUES ($1, $2, $3)"@ + "\n         ON CONFLICT (workflow_id, installation_id)"@
        + "\n         DO UPDATE SET version = EXCLUDED.version, last_seen_at = now()"@);
    reveal_strlit("DELETE FROM registry_installs");
    reveal_strlit(" WHERE workflow_id = $1 AND installation_id = $2");
    reveal_strlit("DELETE FROM registry_installs WHERE workflow_id = $1 AND installation_id = $2");
    assert(DELETE_INSTALL@ =~= "DELETE FROM registry_installs"@
        + " WHERE workflow_id = $1 AND installation_id = $2"@);
}

/// An install is written only of a version the database knows; one that was
/// never published is not found.
pub proof fn only_a_published_version_is_recorded(
    reply: std::result::Result<Option<i32>, DbError>,
)
    ensures
        found(reply, "version"@) is Ok <==> reply is Ok && reply->Ok_0 is Some,
        reply is Ok && reply->Ok_0 is None ==> found(reply, "version"@) == Err::<i32, ErrorView>(
            ErrorView::NotFound("version"@),
        ),
{
}

} // verus!
