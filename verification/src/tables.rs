//! What the statements do to the rows.
//!
//! The registry only hands statements out; the rows are the database's. So
//! that promises on rows can be stated at all, this module writes down how the
//! statements on workflows, versions and installs read: which rows each one
//! selects and which it changes. Nothing is believed of the database on that
//! account. Each law below says what holds of the rows if the database runs
//! the statements as they read.
use crate::auth::Publisher;
use crate::db::{ParamView, Statement, StatementView};
use crate::error::{found, touched, ErrorView};
use crate::models::RecordInstall;
use crate::routes::installs::{
    forgetting_of, install_of, known_of, DELETE_INSTALL, SELECT_KNOWN_VERSION, UPSERT_INSTALL,
};
use crate::routes::workflows::{
    detail_of, list, listing_of, listing_text, lookup_of, owned_lookup_of, unlisting_of, ListParams,
    Sort, DETAIL_FILTER, SELECT_OWNED_WORKFLOW_ID, SELECT_VERSION, SELECT_VERSIONS,
    SELECT_WORKFLOW_ID, SUMMARY_SELECT, UNLIST_WORKFLOW,
};
use uuid::Uuid;
use vstd::prelude::*;

verus! {

/// A row of `registry_workflows`. A moment is a number.
pub struct StoredWorkflow {
    pub id: Uuid,
    pub slug: Seq<char>,
    pub title: Seq<char>,
    pub description: Seq<char>,
    pub tags: Seq<Seq<char>>,
    pub official: bool,
    pub publisher_id: Uuid,
    pub updated_at: int,
    pub unlisted_at: Option<int>,
}

/// A row of `registry_versions`.
pub struct StoredVersion {
    pub workflow_id: Uuid,
    pub version: i32,
    pub yaml: Seq<char>,
    pub changelog: Option<Seq<char>>,
    pub published_at: int,
    pub withdrawn_at: Option<int>,
}

/// A row of `registry_installs`.
pub struct StoredInstall {
    pub workflow_id: Uuid,
    pub installation_id: Uuid,
    pub version: i32,
    pub last_seen_at: int,
}

/// The rows of the three tables.
pub struct Tables {
    pub workflows: Set<StoredWorkflow>,
    pub versions: Set<StoredVersion>,
    pub installs: Set<StoredInstall>,
}

impl StoredWorkflow {
    /// The row after the workflow `id` was unlisted.
    pub open spec fn after_unlisting(self, id: Uuid, now: int) -> StoredWorkflow {
        if self.id == id {
            StoredWorkflow { unlisted_at: Some(now), ..self }
        } else {
            self
        }
    }
}

impl StoredInstall {
    /// Whether this is the row of a workflow and an installation.
    pub open spec fn is_of(self, workflow: Uuid, installation_id: Uuid) -> bool {
        self.workflow_id == workflow && self.installation_id == installation_id
    }

    /// The row after the installation was recorded.
    pub open spec fn after_recording(
        self,
        workflow: Uuid,
        installation_id: Uuid,
        version: i32,
        now: int,
    ) -> StoredInstall {
        if self.is_of(workflow, installation_id) {
            StoredInstall { version, last_seen_at: now, ..self }
        } else {
            self
        }
    }
}

/// What a statement that is asked for one row at most answers.
pub open spec fn is_reply<T>(rows: Set<T>, reply: Option<T>) -> bool {
    match reply {
        Some(row) => rows.contains(row),
        None => forall|row: T| !rows.contains(row),
    }
}

/// Whether two characters are the same letter, in capitals or not.
pub open spec fn is_same_letter(a: char, b: char) -> bool {
    ||| a == b
    ||| 'A' <= a && a <= 'Z' && a as int + 32 == b as int
    ||| 'A' <= b && b <= 'Z' && b as int + 32 == a as int
}

/// Whether a text holds a term somewhere, in capitals or not.
pub open spec fn mentions(text: Seq<char>, term: Seq<char>) -> bool {
    exists|at: int| #[trigger] mentions_at(text, term, at)
}

/// Whether a text holds a term at one place, in capitals or not.
pub open spec fn mentions_at(text: Seq<char>, term: Seq<char>, at: int) -> bool {
    &&& 0 <= at
    &&& at + term.len() <= text.len()
    &&& forall|i: int|
        0 <= i < term.len() ==> is_same_letter(text[at + i], #[trigger] term[i])
}

/// Whether a term stands for itself alone: letters, digits, spaces and dashes,
/// none of which the database takes for a wildcard.
pub open spec fn is_plain_term(term: Seq<char>) -> bool {
    forall|i: int|
        0 <= i < term.len() ==> {
            let c = #[trigger] term[i];
            ('a' <= c && c <= 'z') || ('A' <= c && c <= 'Z') || ('0' <= c && c <= '9') || c == ' '
                || c == '-'
        }
}

/// What the filter of a listing keeps of the workflows: those with the tag, the
/// term and the badge that are bound, each of them only if it is.
pub open spec fn is_asked_for(w: StoredWorkflow, values: Seq<ParamView>) -> bool {
    &&& forall|tag: Seq<char>|
        values[0] == ParamView::MaybeText(Some(tag)) ==> #[trigger] w.tags.contains(tag)
    &&& forall|term: Seq<char>|
        #![trigger mentions(w.title, term)]
        values[1] == ParamView::MaybeText(Some(term)) && is_plain_term(term) ==> mentions(
            w.title,
            term,
        ) || mentions(w.description, term)
    &&& values[2] matches ParamView::MaybeBool(Some(flag)) ==> w.official == flag
}

impl Tables {
    /// The schema's unique keys: an id and a slug name one workflow, a number
    /// names one version of a workflow, and an installation has one row for
    /// each workflow.
    pub open spec fn is_valid(self) -> bool {
        &&& forall|a: StoredWorkflow, b: StoredWorkflow|
            self.workflows.contains(a) && self.workflows.contains(b) && (a.id == b.id || a.slug
                == b.slug) ==> a == b
        &&& forall|a: StoredVersion, b: StoredVersion|
            self.versions.contains(a) && self.versions.contains(b) && a.workflow_id
                == b.workflow_id && a.version == b.version ==> a == b
        &&& forall|a: StoredInstall, b: StoredInstall|
            self.installs.contains(a) && self.installs.contains(b) && a.is_of(
                b.workflow_id,
                b.installation_id,
            ) ==> a == b
    }

    /// Whether the database holds a row for a workflow and an installation.
    pub open spec fn has_install(self, workflow: Uuid, installation_id: Uuid) -> bool {
        exists|r: StoredInstall| #[trigger]
            self.installs.contains(r) && r.is_of(workflow, installation_id)
    }

    /// The workflows whose columns a statement selects. Of a listing, its page
    /// narrows them further.
    pub open spec fn selects_workflows(
        self,
        statement: StatementView,
        rows: Set<StoredWorkflow>,
    ) -> bool {
        &&& statement.sql == SELECT_WORKFLOW_ID@ ==> forall|w: StoredWorkflow| #[trigger]
            rows.contains(w) <==> self.workflows.contains(w) && statement.params[0]
                == ParamView::Text(w.slug)
        &&& statement.sql == SELECT_OWNED_WORKFLOW_ID@ ==> forall|w: StoredWorkflow| #[trigger]
            rows.contains(w) <==> self.workflows.contains(w) && statement.params[0]
                == ParamView::Text(w.slug) && statement.params[1] == ParamView::Id(w.publisher_id)
        &&& statement.sql == SUMMARY_SELECT@ + DETAIL_FILTER@ ==> forall|w: StoredWorkflow| #[trigger]
            rows.contains(w) <==> self.workflows.contains(w) && statement.params[0]
                == ParamView::Text(w.slug) && w.unlisted_at is None
        &&& forall|sort: Sort|
            statement.sql == #[trigger] listing_text(sort) ==> forall|w: StoredWorkflow| #[trigger]
                rows.contains(w) ==> self.workflows.contains(w) && w.unlisted_at is None
                    && is_asked_for(w, statement.params)
    }

    /// The versions whose columns a statement selects.
    pub open spec fn selects_versions(
        self,
        statement: StatementView,
        rows: Set<StoredVersion>,
    ) -> bool {
        &&& statement.sql == SELECT_VERSIONS@ ==> forall|v: StoredVersion| #[trigger]
            rows.contains(v) <==> self.versions.contains(v) && statement.params[0]
                == ParamView::Id(v.workflow_id)
        &&& statement.sql == SELECT_VERSION@ || statement.sql == SELECT_KNOWN_VERSION@
            ==> forall|v: StoredVersion| #[trigger]
            rows.contains(v) <==> self.versions.contains(v) && statement.params[0]
                == ParamView::Id(v.workflow_id) && statement.params[1] == ParamView::Int(v.version)
    }

    /// The rows after a workflow was unlisted.
    pub open spec fn after_unlisting(self, id: Uuid, now: int) -> Tables {
        Tables {
            workflows: Set::new(
                |r: StoredWorkflow|
                    exists|w: StoredWorkflow| #[trigger]
                        self.workflows.contains(w) && r == w.after_unlisting(id, now),
            ),
            ..self
        }
    }

    /// The rows after an install was recorded: the row that meets it takes the
    /// version over and counts as seen now, and without one there is a new row.
    pub open spec fn after_recording(
        self,
        workflow: Uuid,
        installation_id: Uuid,
        version: i32,
        now: int,
    ) -> Tables {
        let installs = if self.has_install(workflow, installation_id) {
            Set::new(
                |r: StoredInstall|
                    exists|i: StoredInstall| #[trigger]
                        self.installs.contains(i) && r == i.after_recording(
                            workflow,
                            installation_id,
                            version,
                            now,
                        ),
            )
        } else {
            self.installs.insert(
                StoredInstall { workflow_id: workflow, installation_id, version, last_seen_at: now },
            )
        };
        Tables { installs, ..self }
    }

    /// The rows after an install was forgotten.
    pub open spec fn after_forgetting(self, workflow: Uuid, installation_id: Uuid) -> Tables {
        Tables {
            installs: Set::new(
                |r: StoredInstall| self.installs.contains(r) && !r.is_of(workflow, installation_id),
            ),
            ..self
        }
    }

    /// What a statement run at `now` makes of the rows, and how many of them it
    /// touches.
    pub open spec fn becomes(
        self,
        statement: StatementView,
        now: int,
        next: Tables,
        count: u64,
    ) -> bool {
        &&& statement.sql == UNLIST_WORKFLOW@ ==> next == self.after_unlisting(
            statement.params[0]->Id_0,
            now,
        )
        &&& statement.sql == UPSERT_INSTALL@ ==> next == self.after_recording(
            statement.params[0]->Id_0,
            statement.params[1]->Id_0,
            statement.params[2]->Int_0,
            now,
        )
        &&& statement.sql == DELETE_INSTALL@ ==> {
            &&& next == self.after_forgetting(
                statement.params[0]->Id_0,
                statement.params[1]->Id_0,
            )
            &&& count > 0 <==> self.has_install(
                statement.params[0]->Id_0,
                statement.params[1]->Id_0,
            )
        }
    }
}

// --- listing ----------------------------------------------------------------

/// Every workflow that a listing holds is what was asked for: it has the tag
/// among its tags, the term in its title or its description, and the badge as
/// it was asked for, each of these if it was. A term with a wildcard in it
/// asks for more than itself and is left out here.
pub proof fn a_listing_holds_what_was_asked_for(
    t: Tables,
    params: ListParams,
    st: Statement,
    rows: Set<StoredWorkflow>,
    w: StoredWorkflow,
)
    requires
        call_ensures(list, (params,), st),
        t.selects_workflows(st@, rows),
        rows.contains(w),
    ensures
        t.workflows.contains(w),
        w.unlisted_at is None,
        params.tag matches Some(tag) ==> w.tags.contains(tag@),
        params.q matches Some(q) ==> is_plain_term(q@) ==> mentions(w.title, q@) || mentions(
            w.description,
            q@,
        ),
        params.official matches Some(flag) ==> w.official == flag,
{
    assert(st@.sql == listing_text(params.sort));
    let values = st@.params;
    assert(is_asked_for(w, values));
    assert(values[0] == ParamView::MaybeText(params.tag.deep_view()));
    assert(values[1] == ParamView::MaybeText(params.q.deep_view()));
    assert(values[2] == ParamView::MaybeBool(params.official));
    if let Some(tag) = params.tag {
        assert(params.tag.deep_view() == Some(tag@));
        assert(w.tags.contains(tag@));
    }
    if let Some(q) = params.q {
        assert(params.q.deep_view() == Some(q@));
        if is_plain_term(q@) {
            assert(mentions(w.title, q@) || mentions(w.description, q@));
        }
    }
    if let Some(flag) = params.official {
        assert(values[2] == ParamView::MaybeBool(Some(flag)));
    }
}

// --- unlisting --------------------------------------------------------------

/// Once a publisher has unlisted a workflow of its own, no listing holds the
/// slug, and its entry is not found.
pub proof fn an_unlisted_workflow_leaves_the_library(
    t: Tables,
    publisher: Publisher,
    slug: Seq<char>,
    owned: Set<StoredWorkflow>,
    w: StoredWorkflow,
    now: int,
    next: Tables,
    count: u64,
)
    requires
        t.is_valid(),
        t.selects_workflows(owned_lookup_of(slug, publisher.id), owned),
        owned.contains(w),
        t.becomes(unlisting_of(w.id), now, next, count),
    ensures
        forall|params: ListParams, rows: Set<StoredWorkflow>, r: StoredWorkflow|
            #![trigger next.selects_workflows(listing_of(params), rows), rows.contains(r)]
            next.selects_workflows(listing_of(params), rows) && rows.contains(r) ==> r.slug != slug,
        forall|rows: Set<StoredWorkflow>, reply: Option<StoredWorkflow>|
            #![trigger next.selects_workflows(detail_of(slug), rows), is_reply(rows, reply)]
            next.selects_workflows(detail_of(slug), rows) && is_reply(rows, reply) ==> found(
                Ok(reply),
                "workflow"@,
            ) == Err::<StoredWorkflow, ErrorView>(ErrorView::NotFound("workflow"@)),
{
    assert(owned_lookup_of(slug, publisher.id).params[0] == ParamView::Text(slug));
    assert(unlisting_of(w.id).params[0] == ParamView::Id(w.id));
    assert forall|r: StoredWorkflow| next.workflows.contains(r) && r.slug
        == slug implies r.unlisted_at is Some by {
        let o = choose|o: StoredWorkflow| #[trigger]
            t.workflows.contains(o) && r == o.after_unlisting(w.id, now);
        assert(o == w);
    }
    assert forall|params: ListParams, rows: Set<StoredWorkflow>, r: StoredWorkflow|
        #![trigger next.selects_workflows(listing_of(params), rows), rows.contains(r)]
        next.selects_workflows(listing_of(params), rows) && rows.contains(r) implies r.slug
        != slug by {
        assert(listing_of(params).sql == listing_text(params.sort));
        assert(next.workflows.contains(r) && r.unlisted_at is None);
    }
    assert forall|rows: Set<StoredWorkflow>, reply: Option<StoredWorkflow>|
        #![trigger next.selects_workflows(detail_of(slug), rows), is_reply(rows, reply)]
        next.selects_workflows(detail_of(slug), rows) && is_reply(rows, reply) implies reply
        is None by {
        assert(detail_of(slug).params[0] == ParamView::Text(slug));
        if reply is Some {
            assert(rows.contains(reply->0));
        }
    }
}

/// An unlisting deletes nothing and breaks nothing: every workflow keeps its
/// row and all of it but the mark, every slug is looked up to the same id, and
/// versions, documents and installs are as they were.
pub proof fn an_unlisted_workflow_keeps_resolving(
    t: Tables,
    id: Uuid,
    now: int,
    next: Tables,
    count: u64,
)
    requires
        t.is_valid(),
        t.becomes(unlisting_of(id), now, next, count),
    ensures
        next.is_valid(),
        forall|w: StoredWorkflow| #[trigger]
            t.workflows.contains(w) ==> next.workflows.contains(w.after_unlisting(id, now)),
        forall|r: StoredWorkflow| #[trigger]
            next.workflows.contains(r) ==> exists|w: StoredWorkflow| #[trigger]
                t.workflows.contains(w) && r == w.after_unlisting(id, now),
        forall|
            slug: Seq<char>,
            before: Set<StoredWorkflow>,
            after: Set<StoredWorkflow>,
            w: StoredWorkflow,
        |
            #![trigger t.selects_workflows(lookup_of(slug), before), next.selects_workflows(lookup_of(slug), after), before.contains(w)]
            t.selects_workflows(lookup_of(slug), before) && next.selects_workflows(
                lookup_of(slug),
                after,
            ) ==> (before.contains(w) ==> after.contains(w.after_unlisting(id, now))),
        forall|
            slug: Seq<char>,
            before: Set<StoredWorkflow>,
            after: Set<StoredWorkflow>,
            r: StoredWorkflow,
        |
            #![trigger t.selects_workflows(lookup_of(slug), before), next.selects_workflows(lookup_of(slug), after), after.contains(r)]
            t.selects_workflows(lookup_of(slug), before) && next.selects_workflows(
                lookup_of(slug),
                after,
            ) && after.contains(r) ==> exists|w: StoredWorkflow| #[trigger]
                before.contains(w) && w.id == r.id,
        next.versions == t.versions,
        next.installs == t.installs,
        forall|statement: StatementView, rows: Set<StoredVersion>|
            t.selects_versions(statement, rows) <==> #[trigger] next.selects_versions(
                statement,
                rows,
            ),
{
    assert(unlisting_of(id).params[0] == ParamView::Id(id));
    assert(next == t.after_unlisting(id, now));
    assert forall|a: StoredWorkflow, b: StoredWorkflow|
        next.workflows.contains(a) && next.workflows.contains(b) && (a.id == b.id || a.slug
            == b.slug) implies a == b by {
        let x = choose|w: StoredWorkflow| #[trigger]
            t.workflows.contains(w) && a == w.after_unlisting(id, now);
        let y = choose|w: StoredWorkflow| #[trigger]
            t.workflows.contains(w) && b == w.after_unlisting(id, now);
        assert(x == y);
    }
    assert forall|
        slug: Seq<char>,
        before: Set<StoredWorkflow>,
        after: Set<StoredWorkflow>,
        r: StoredWorkflow,
    |
        #![trigger t.selects_workflows(lookup_of(slug), before), next.selects_workflows(lookup_of(slug), after), after.contains(r)]
        t.selects_workflows(lookup_of(slug), before) && next.selects_workflows(
            lookup_of(slug),
            after,
        ) && after.contains(r) implies exists|w: StoredWorkflow| #[trigger]
        before.contains(w) && w.id == r.id by {
        let w = choose|w: StoredWorkflow| #[trigger]
            t.workflows.contains(w) && r == w.after_unlisting(id, now);
        assert(before.contains(w));
    }
}

// --- installs ---------------------------------------------------------------

/// Once an install is recorded, its installation has exactly one row for the
/// workflow, of that version and seen at that moment. Every other row is as it
/// was.
pub proof fn a_recorded_install_is_one_row(
    t: Tables,
    workflow: Uuid,
    body: RecordInstall,
    now: int,
    next: Tables,
    count: u64,
)
    requires
        t.is_valid(),
        t.becomes(install_of(workflow, body), now, next, count),
    ensures
        next.is_valid(),
        next.workflows == t.workflows,
        next.versions == t.versions,
        forall|r: StoredInstall|
            r.is_of(workflow, body.installation_id) ==> (#[trigger] next.installs.contains(r) <==> r
                == recorded_row(workflow, body, now)),
        forall|r: StoredInstall|
            !r.is_of(workflow, body.installation_id) ==> (#[trigger] next.installs.contains(r)
                <==> t.installs.contains(r)),
{
    let pair = body.installation_id;
    let params = install_of(workflow, body).params;
    assert(params[0] == ParamView::Id(workflow) && params[1] == ParamView::Id(pair) && params[2]
        == ParamView::Int(body.version));
    let row = recorded_row(workflow, body, now);
    assert(next == t.after_recording(workflow, pair, body.version, now));
    if t.has_install(workflow, pair) {
        let met = choose|r: StoredInstall| #[trigger]
            t.installs.contains(r) && r.is_of(workflow, pair);
        assert(row == met.after_recording(workflow, pair, body.version, now));
        assert(next.installs.contains(row));
    }
    assert forall|r: StoredInstall| r.is_of(workflow, pair) implies (
    #[trigger] next.installs.contains(r) <==> r == row) by {
        if next.installs.contains(r) && t.has_install(workflow, pair) {
            let i = choose|i: StoredInstall| #[trigger]
                t.installs.contains(i) && r == i.after_recording(workflow, pair, body.version, now);
            assert(i.is_of(workflow, pair));
        }
    }
    assert forall|r: StoredInstall| !r.is_of(workflow, pair) implies (
    #[trigger] next.installs.contains(r) <==> t.installs.contains(r)) by {
        if t.installs.contains(r) {
            assert(r == r.after_recording(workflow, pair, body.version, now));
        }
    }
}

/// The row of an install that was recorded.
pub open spec fn recorded_row(workflow: Uuid, body: RecordInstall, now: int) -> StoredInstall {
    StoredInstall {
        workflow_id: workflow,
        installation_id: body.installation_id,
        version: body.version,
        last_seen_at: now,
    }
}

/// Recording an installation again adds no row: the row of the first record
/// becomes that of the second.
pub proof fn recording_again_adds_no_row(
    t: Tables,
    workflow: Uuid,
    first: RecordInstall,
    second: RecordInstall,
    now: int,
    later: int,
    next: Tables,
    last: Tables,
    count: u64,
    recount: u64,
)
    requires
        t.is_valid(),
        t.installs.finite(),
        first.installation_id == second.installation_id,
        t.becomes(install_of(workflow, first), now, next, count),
        next.becomes(install_of(workflow, second), later, last, recount),
    ensures
        last.installs == next.installs.remove(recorded_row(workflow, first, now)).insert(
            recorded_row(workflow, second, later),
        ),
        next.installs.finite(),
        last.installs.len() == next.installs.len(),
        t.has_install(workflow, first.installation_id) ==> last.installs.len() == t.installs.len(),
        !t.has_install(workflow, first.installation_id) ==> last.installs.len()
            == t.installs.len() + 1,
{
    let pair = first.installation_id;
    let one = recorded_row(workflow, first, now);
    let two = recorded_row(workflow, second, later);
    a_recorded_install_is_one_row(t, workflow, first, now, next, count);
    a_recorded_install_is_one_row(next, workflow, second, later, last, recount);
    assert(one.is_of(workflow, pair) && two.is_of(workflow, pair));
    assert(last.installs =~= next.installs.remove(one).insert(two)) by {
        assert forall|r: StoredInstall| last.installs.contains(r) <==> next.installs.remove(
            one,
        ).insert(two).contains(r) by {
            if r.is_of(workflow, pair) {
                assert(next.installs.contains(r) <==> r == one);
            }
        }
    }
    if t.has_install(workflow, pair) {
        let met = choose|r: StoredInstall| #[trigger]
            t.installs.contains(r) && r.is_of(workflow, pair);
        assert(next.installs =~= t.installs.remove(met).insert(one)) by {
            assert forall|r: StoredInstall| next.installs.contains(r) <==> t.installs.remove(
                met,
            ).insert(one).contains(r) by {
                if r.is_of(workflow, pair) && t.installs.contains(r) {
                    assert(r.is_of(met.workflow_id, met.installation_id));
                }
            }
        }
        assert(!t.installs.remove(met).contains(one)) by {
            if t.installs.contains(one) {
                assert(one.is_of(met.workflow_id, met.installation_id));
            }
        }
    } else {
        assert(next.installs =~= t.installs.insert(one)) by {
            assert forall|r: StoredInstall| next.installs.contains(r) <==> t.installs.insert(
                one,
            ).contains(r) by {
                if r.is_of(workflow, pair) {
                    assert(!t.installs.contains(r));
                }
            }
        }
        assert(!t.installs.contains(one));
    }
    assert(!next.installs.remove(one).contains(two)) by {
        assert(next.installs.contains(two) <==> two == one);
    }
}

/// Recording goes past its lookups exactly where the rows are: a slug that
/// names no workflow and a number that names no version of it are not found.
pub proof fn only_what_is_there_is_recorded(
    t: Tables,
    slug: Seq<char>,
    workflows: Set<StoredWorkflow>,
    workflow: Option<StoredWorkflow>,
    id: Uuid,
    number: i32,
    versions: Set<StoredVersion>,
    version: Option<StoredVersion>,
)
    requires
        t.selects_workflows(lookup_of(slug), workflows),
        is_reply(workflows, workflow),
        t.selects_versions(known_of(id, number), versions),
        is_reply(versions, version),
    ensures
        found(Ok(workflow), "workflow"@) is Ok <==> exists|w: StoredWorkflow| #[trigger]
            t.workflows.contains(w) && w.slug == slug,
        workflow matches Some(w) ==> t.workflows.contains(w) && w.slug == slug,
        workflow is None ==> found(Ok(workflow), "workflow"@) == Err::<StoredWorkflow, ErrorView>(
            ErrorView::NotFound("workflow"@),
        ),
        found(Ok(version), "version"@) is Ok <==> exists|v: StoredVersion| #[trigger]
            t.versions.contains(v) && v.workflow_id == id && v.version == number,
        version is None ==> found(Ok(version), "version"@) == Err::<StoredVersion, ErrorView>(
            ErrorView::NotFound("version"@),
        ),
{
    assert(lookup_of(slug).params[0] == ParamView::Text(slug));
    assert(known_of(id, number).params[0] == ParamView::Id(id));
    assert(known_of(id, number).params[1] == ParamView::Int(number));
    if exists|w: StoredWorkflow| #[trigger] t.workflows.contains(w) && w.slug == slug {
        let w = choose|w: StoredWorkflow| #[trigger] t.workflows.contains(w) && w.slug == slug;
        assert(workflows.contains(w));
    }
    if let Some(w) = workflow {
        assert(workflows.contains(w));
    }
    if exists|v: StoredVersion| #[trigger]
        t.versions.contains(v) && v.workflow_id == id && v.version == number {
        let v = choose|v: StoredVersion| #[trigger]
            t.versions.contains(v) && v.workflow_id == id && v.version == number;
        assert(versions.contains(v));
    }
    if let Some(v) = version {
        assert(versions.contains(v));
    }
}

/// Once an install is forgotten its row is gone and every other is as it was.
/// It is found to forget exactly if there was a row, so forgetting it again is
/// not found.
pub proof fn a_forgotten_install_is_gone(
    t: Tables,
    workflow: Uuid,
    installation_id: Uuid,
    now: int,
    later: int,
    next: Tables,
    last: Tables,
    count: u64,
    recount: u64,
)
    requires
        t.is_valid(),
        t.becomes(forgetting_of(workflow, installation_id), now, next, count),
        next.becomes(forgetting_of(workflow, installation_id), later, last, recount),
    ensures
        next.is_valid(),
        next.workflows == t.workflows,
        next.versions == t.versions,
        !next.has_install(workflow, installation_id),
        forall|r: StoredInstall|
            !r.is_of(workflow, installation_id) ==> (#[trigger] next.installs.contains(r)
                <==> t.installs.contains(r)),
        touched(Ok(count), "install"@) is Ok <==> t.has_install(workflow, installation_id),
        touched(Ok(recount), "install"@) == Err::<(), ErrorView>(ErrorView::NotFound("install"@)),
        last.installs == next.installs,
{
    let params = forgetting_of(workflow, installation_id).params;
    assert(params[0] == ParamView::Id(workflow) && params[1] == ParamView::Id(installation_id));
    assert(last.installs =~= next.installs);
}

} // verus!
