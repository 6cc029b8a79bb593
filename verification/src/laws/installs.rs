//! What recording and forgetting an install ask of the database, and what they
//! answer.
use crate::db::{DbError, ParamView, Statement};
use crate::error::{Error, Result};
use crate::laws::replies::{follows, follows_row, follows_touch, is_statement, lemma_is_statement};
use crate::models::{RecordInstall, Status};
use crate::routes::installs::{
    forget, record, Admission, ForgetLookup, ForgetWrite, RecordLookup, RecordVersion, RecordWrite,
};
use uuid::Uuid;
use vstd::prelude::*;

verus! {

/// An install is written or forgotten exactly for a client that the limiter lets
/// through; any other is told that it asks too often.
pub proof fn only_an_admitted_client_writes(
    admission: Admission,
    slug: String,
    body: RecordInstall,
    installation_id: Uuid,
    recorded: Result<RecordLookup>,
    forgotten: Result<ForgetLookup>,
)
    requires
        call_ensures(record, (admission, slug, body), recorded),
        call_ensures(forget, (admission, slug, installation_id), forgotten),
    ensures
        recorded is Ok <==> admission.granted(),
        forgotten is Ok <==> admission.granted(),
        recorded matches Err(e) ==> e == Error::TooManyRequests,
        forgotten matches Err(e) ==> e == Error::TooManyRequests,
{
}

/// An install is recorded of the workflow its slug was looked up to, of the
/// version that was found there, for the installation that was sent.
pub proof fn an_install_is_recorded_as_it_was_sent(
    admission: Admission,
    slug: String,
    body: RecordInstall,
    lookup: RecordLookup,
    st: Statement,
    id: Uuid,
    version: RecordVersion,
    next: Statement,
    known: i32,
    write: RecordWrite,
    last: Statement,
    count: u64,
    done: Status,
)
    requires
        call_ensures(record, (admission, slug, body), Ok(lookup)),
        call_ensures(RecordLookup::statement, (&lookup,), st),
        call_ensures(RecordLookup::found, (lookup, Ok(Some(id))), Ok(version)),
        call_ensures(RecordVersion::statement, (&version,), next),
        call_ensures(RecordVersion::known, (version, Ok(Some(known))), Ok(write)),
        call_ensures(RecordWrite::statement, (&write,), last),
        call_ensures(RecordWrite::written, (write, Ok(count)), Ok(done)),
    ensures
        done.status@ == "recorded"@,
        is_statement(
            st,
            "SELECT id FROM registry_workflows WHERE slug = $1"@,
            seq![ParamView::Text(slug@)],
        ),
        is_statement(
            next,
            "SELECT version FROM registry_versions WHERE workflow_id = $1 AND version = $2"@,
            seq![ParamView::Id(id), ParamView::Int(body.version)],
        ),
        is_statement(
            last,
            "INSERT INTO registry_installs (workflow_id, installation_id, version)
         VALUES ($1, $2, $3)
         ON CONFLICT (workflow_id, installation_id)
         DO UPDATE SET version = EXCLUDED.version, last_seen_at = now()"@,
            seq![
                ParamView::Id(id),
                ParamView::Id(body.installation_id),
                ParamView::Int(body.version),
            ],
        ),
{
    lemma_is_statement(
        st,
        "SELECT id FROM registry_workflows WHERE slug = $1"@,
        seq![ParamView::Text(slug@)],
    );
    lemma_is_statement(
        next,
        "SELECT version FROM registry_versions WHERE workflow_id = $1 AND version = $2"@,
        seq![ParamView::Id(id), ParamView::Int(body.version)],
    );
    lemma_is_statement(
        last,
        "INSERT INTO registry_installs (workflow_id, installation_id, version)
         VALUES ($1, $2, $3)
         ON CONFLICT (workflow_id, installation_id)
         DO UPDATE SET version = EXCLUDED.version, last_seen_at = now()"@,
        seq![
            ParamView::Id(id),
            ParamView::Id(body.installation_id),
            ParamView::Int(body.version),
        ],
    );
}

/// Recording fails where the workflow or the version is not there, or where the
/// database does.
pub proof fn recording_can_fail(
    lookup: RecordLookup,
    found: std::result::Result<Option<Uuid>, DbError>,
    to_version: Result<RecordVersion>,
    version: RecordVersion,
    known: std::result::Result<Option<i32>, DbError>,
    to_write: Result<RecordWrite>,
    write: RecordWrite,
    written: std::result::Result<u64, DbError>,
    res: Result<Status>,
)
    requires
        call_ensures(RecordLookup::found, (lookup, found), to_version),
        call_ensures(RecordVersion::known, (version, known), to_write),
        call_ensures(RecordWrite::written, (write, written), res),
    ensures
        follows_row(found, to_version, "workflow"@),
        follows_row(known, to_write, "version"@),
        follows(written, res),
{
}

/// The install that is forgotten is that of the installation sent, of the
/// workflow its slug was looked up to.
pub proof fn an_install_is_forgotten_as_it_was_sent(
    admission: Admission,
    slug: String,
    installation_id: Uuid,
    lookup: ForgetLookup,
    st: Statement,
    id: Uuid,
    write: ForgetWrite,
    next: Statement,
    count: u64,
    done: Status,
)
    requires
        call_ensures(forget, (admission, slug, installation_id), Ok(lookup)),
        call_ensures(ForgetLookup::statement, (&lookup,), st),
        call_ensures(ForgetLookup::found, (lookup, Ok(Some(id))), Ok(write)),
        call_ensures(ForgetWrite::statement, (&write,), next),
        call_ensures(ForgetWrite::deleted, (write, Ok(count)), Ok(done)),
    ensures
        done.status@ == "forgotten"@,
        is_statement(
            st,
            "SELECT id FROM registry_workflows WHERE slug = $1"@,
            seq![ParamView::Text(slug@)],
        ),
        is_statement(
            next,
            "DELETE FROM registry_installs WHERE workflow_id = $1 AND installation_id = $2"@,
            seq![ParamView::Id(id), ParamView::Id(installation_id)],
        ),
{
    lemma_is_statement(
        st,
        "SELECT id FROM registry_workflows WHERE slug = $1"@,
        seq![ParamView::Text(slug@)],
    );
    lemma_is_statement(
        next,
        "DELETE FROM registry_installs WHERE workflow_id = $1 AND installation_id = $2"@,
        seq![ParamView::Id(id), ParamView::Id(installation_id)],
    );
}

/// Forgetting fails where the workflow or the install is not there, or where the
/// database does.
pub proof fn forgetting_can_fail(
    lookup: ForgetLookup,
    found: std::result::Result<Option<Uuid>, DbError>,
    to_write: Result<ForgetWrite>,
    write: ForgetWrite,
    deleted: std::result::Result<u64, DbError>,
    res: Result<Status>,
)
    requires
        call_ensures(ForgetLookup::found, (lookup, found), to_write),
        call_ensures(ForgetWrite::deleted, (write, deleted), res),
    ensures
        follows_row(found, to_write, "workflow"@),
        follows_touch(deleted, res, "install"@),
{
}

} // verus!
