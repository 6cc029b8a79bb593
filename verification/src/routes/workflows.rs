//! The library: browse, publish, amend, unlist.
use crate::auth::Publisher;
use crate::db::{bound, copy_text, copy_texts, DbError, Param, ParamView, Statement, StatementView};
use crate::error::{
    answered, contested, expect_answer, expect_row, expect_unique, found, refused, verdict, Result,
};
use crate::models::{
    CreateWorkflow, PublishVersion, Published, Status, Timestamp, UpdateWorkflow, VersionDocument,
    VersionSummary, WorkflowSummary,
};
use crate::text::{
    a_whole_holds_what_its_pieces_hold, ascii_lower, holds, lemma_pairless_holds_not, occurs_at,
    pairless, reads_as, trim, trimmed,
};
use uuid::Uuid;
use vstd::prelude::*;

verus! {

/// Columns behind every listing.
///
/// An entry is shown under its publisher's display name, and under the login
/// where there is none.
///
/// The install count is `count(*)` over the records rather than a stored
/// number, and the latest version excludes withdrawn ones so a pulled release
/// does not keep being advertised as current.
///
/// Only installs seen in the last 90 days count, which is the second half of
/// making the number safe to rank by. The rate limit bounds how fast a count
/// can be inflated; this bounds how long an inflated one survives, because a
/// fabricated install has to keep calling to keep counting. It also makes the
/// figure mean "installs still out there" rather than "installs ever made",
/// which is the more useful number anyway -- the schema anticipated this by
/// refreshing `last_seen_at` on every read of the library.
pub const SUMMARY_SELECT: &'static str =
    r#"
SELECT w.slug,
       w.title,
       w.description,
       w.tags,
       w.official,
       COALESCE(p.display_name, p.github_login) AS publisher,
       (SELECT max(v.version) FROM registry_versions v
          WHERE v.workflow_id = w.id AND v.withdrawn_at IS NULL) AS latest_version,
       (SELECT count(*) FROM registry_installs i
          WHERE i.workflow_id = w.id
            AND i.last_seen_at > now() - interval '90 days') AS installs,
       w.updated_at
  FROM registry_workflows w
  JOIN registry_publishers p ON p.id = w.publisher_id
"#;

/// Filter for a listing. Every field is bound as a parameter; the search term
/// has its wildcards added in SQL around the bound value, never by pasting the
/// value into the statement.
pub const LIST_FILTER: &'static str =
    r#"
 WHERE w.unlisted_at IS NULL
   AND ($1::text IS NULL OR $1 = ANY(w.tags))
   AND ($2::text IS NULL OR w.title ILIKE '%' || $2 || '%'
                         OR w.description ILIKE '%' || $2 || '%')
   AND ($3::boolean IS NULL OR w.official = $3)
"#;

/// How a listing is ordered.
///
/// **Installs first, by default.** Ordering by recency rewards publishing
/// volume: whoever publishes the most owns the top of the list, which is the
/// shape of every spam incentive. Ordering by installs makes a workflow nobody
/// installs invisible however many are published -- it removes the reward
/// rather than policing the behaviour, and costs one clause.
///
/// `official` still leads, so the project's own workflows are found first
/// whatever their counts.
pub const ORDER_INSTALLS: &'static str =
    " ORDER BY w.official DESC, installs DESC, w.updated_at DESC";

/// Newest first. Kept for anyone genuinely looking for what just landed --
/// which is a real thing to want, and safe as an explicit choice rather than
/// as what everybody gets by default.
pub const ORDER_RECENT: &'static str = " ORDER BY w.official DESC, w.updated_at DESC";

pub const LIST_PAGE: &'static str = " LIMIT $4 OFFSET $5";

/// Which workflow a listing's columns are wanted of.
pub const DETAIL_FILTER: &'static str = " WHERE w.slug = $1 AND w.unlisted_at IS NULL";

pub const SELECT_VERSIONS: &'static str =
    "SELECT version, changelog, published_at, (withdrawn_at IS NOT NULL) AS withdrawn
           FROM registry_versions
          WHERE workflow_id = $1
          ORDER BY version DESC";

/// A withdrawn version is still served, with the flag set. The schema is
/// deliberate about this: installs already holding it keep resolving, and are
/// told rather than broken.
pub const SELECT_VERSION: &'static str =
    "SELECT version, yaml, changelog, published_at, (withdrawn_at IS NOT NULL)
           FROM registry_versions
          WHERE workflow_id = $1 AND version = $2";

pub const INSERT_WORKFLOW: &'static str =
    "INSERT INTO registry_workflows (slug, title, description, tags, publisher_id)
         VALUES ($1, $2, $3, $4, $5)
         RETURNING id";

pub const INSERT_FIRST_VERSION: &'static str =
    "INSERT INTO registry_versions (workflow_id, version, yaml, changelog)
         VALUES ($1, 1, $2, $3)";

/// The next number is derived, not supplied. `version` is a per-workflow
/// counter and not semver: the author presses publish, and nobody wants to
/// choose a number for that.
///
/// Two publishes racing both read the same max and one loses the unique
/// constraint on (workflow_id, version). That surfaces as 409 so the client
/// retries, rather than as a 500.
pub const INSERT_NEXT_VERSION: &'static str =
    "INSERT INTO registry_versions (workflow_id, version, yaml, changelog)
         SELECT $1, COALESCE(max(version), 0) + 1, $2, $3
           FROM registry_versions WHERE workflow_id = $1
         RETURNING version";

pub const TOUCH_WORKFLOW: &'static str =
    "UPDATE registry_workflows SET updated_at = now() WHERE id = $1";

/// COALESCE so an omitted field keeps its value rather than being nulled.
pub const UPDATE_WORKFLOW: &'static str =
    "UPDATE registry_workflows
            SET title = COALESCE($2, title),
                description = COALESCE($3, description),
                tags = COALESCE($4, tags),
                updated_at = now()
          WHERE id = $1";

/// Soft delete. Nothing is removed from under an install that already took it;
/// it simply stops appearing in the library.
pub const UNLIST_WORKFLOW: &'static str =
    "UPDATE registry_workflows SET unlisted_at = now() WHERE id = $1";

pub const SELECT_WORKFLOW_ID: &'static str = "SELECT id FROM registry_workflows WHERE slug = $1";

pub const SELECT_OWNED_WORKFLOW_ID: &'static str =
    "SELECT id FROM registry_workflows WHERE slug = $1 AND publisher_id = $2";

// --- listing ----------------------------------------------------------------

/// Listing order. Anything unrecognised falls back to the default rather than
/// erroring: a bad `sort=` is not worth failing a browse over.
#[derive(Clone, Copy, Debug, PartialEq, Eq, Structural)]
pub enum Sort {
    Installs,
    Recent,
}

impl Default for Sort {
    fn default() -> (res: Self)
        ensures
            res == Sort::Installs,
    {
        Sort::Installs
    }
}

/// The order that a `sort=` parameter asks for.
pub open spec fn sort_of(raw: Option<Seq<char>>) -> Sort {
    match raw {
        Some(raw) => if trimmed(raw).map_values(|c: char| ascii_lower(c)) == "recent"@ {
            Sort::Recent
        } else {
            Sort::Installs
        },
        None => Sort::Installs,
    }
}

impl Sort {
    /// The order that a `sort=` parameter asks for. Absent, or anything but
    /// `recent` in whatever case and white space, it means the default.
    pub fn from_param(raw: Option<&str>) -> (res: Self)
        ensures
            res == sort_of(raw.deep_view()),
    {
        match raw {
            Some(raw) => if reads_as(trim(raw), "recent") {
                Sort::Recent
            } else {
                Sort::Installs
            },
            None => Sort::default(),
        }
    }

    /// The clause that puts a listing into this order.
    pub open spec fn clause(self) -> Seq<char> {
        match self {
            Sort::Installs => ORDER_INSTALLS@,
            Sort::Recent => ORDER_RECENT@,
        }
    }

    /// The clause that puts a listing into this order.
    pub fn order(self) -> (res: &'static str)
        ensures
            res@ == self.clause(),
    {
        match self {
            Sort::Installs => ORDER_INSTALLS,
            Sort::Recent => ORDER_RECENT,
        }
    }
}

#[derive(Debug)]
pub struct ListParams {
    pub tag: Option<String>,
    pub q: Option<String>,
    pub official: Option<bool>,
    pub limit: Option<i64>,
    pub offset: Option<i64>,
    pub sort: Sort,
}

/// How many entries a page holds: what was asked for, within bounds.
pub open spec fn page_limit(limit: Option<i64>) -> i64 {
    let wanted = match limit {
        Some(n) => n,
        None => 50,
    };
    if wanted < 1 {
        1
    } else if wanted > 200 {
        200
    } else {
        wanted
    }
}

/// How many entries are skipped: what was asked for, unless it is negative.
pub open spec fn page_offset(offset: Option<i64>) -> i64 {
    match offset {
        Some(n) => if n < 0 {
            0
        } else {
            n
        },
        None => 0,
    }
}

/// The text of the statement behind a listing in some order.
pub open spec fn listing_text(sort: Sort) -> Seq<char> {
    SUMMARY_SELECT@ + LIST_FILTER@ + sort.clause() + LIST_PAGE@
}

/// The statement behind a listing.
pub open spec fn listing_of(params: ListParams) -> StatementView {
    bound(
        listing_text(params.sort),
        seq![
            ParamView::MaybeText(params.tag.deep_view()),
            ParamView::MaybeText(params.q.deep_view()),
            ParamView::MaybeBool(params.official),
            ParamView::BigInt(page_limit(params.limit)),
            ParamView::BigInt(page_offset(params.offset)),
        ],
    )
}

/// The statement behind a listing.
///
/// Paging is clamped rather than rejected: a listing is a convenience endpoint
/// and a silly limit should not be an error, but it must not be a way to ask
/// for the whole table either.
pub fn list(params: ListParams) -> (res: Statement)
    ensures
        res@ == listing_of(params),
{
    let wanted: i64 = match params.limit {
        Some(n) => n,
        None => 50,
    };
    let limit: i64 = if wanted < 1 {
        1
    } else if wanted > 200 {
        200
    } else {
        wanted
    };
    let offset: i64 = match params.offset {
        Some(n) => if n < 0 {
            0
        } else {
            n
        },
        None => 0,
    };
    let sql = SUMMARY_SELECT.to_owned().concat(LIST_FILTER).concat(params.sort.order()).concat(
        LIST_PAGE,
    );
    let ghost tag = params.tag.deep_view();
    let ghost q = params.q.deep_view();
    let res = Statement::new(sql.as_str()).bind(Param::MaybeText(params.tag)).bind(
        Param::MaybeText(params.q),
    ).bind(Param::MaybeBool(params.official)).bind(Param::BigInt(limit)).bind(Param::BigInt(offset));
    assert(res@.params =~= listing_of(params).params);
    res
}

/// What a listing answers.
pub fn listed(
    reply: std::result::Result<Vec<WorkflowSummary>, DbError>,
) -> (res: Result<Vec<WorkflowSummary>>)
    ensures
        verdict(res) == answered(reply),
{
    expect_answer(reply)
}

/// A page is never empty by request, never the whole table, and never starts
/// before the first entry.
pub proof fn a_page_is_bounded(params: ListParams)
    ensures
        1 <= page_limit(params.limit) <= 200,
        0 <= page_offset(params.offset),
        params.limit is None ==> page_limit(params.limit) == 50,
        params.limit is Some && 1 <= params.limit->0 <= 200 ==> page_limit(params.limit)
            == params.limit->0,
{
}

/// `official` leads a listing in either order, so the project's own workflows
/// are found first whatever their counts.
pub proof fn official_leads_every_listing(sort: Sort)
    ensures
        " ORDER BY w.official DESC"@.is_prefix_of(sort.clause()),
{
    reveal_strlit(" ORDER BY w.official DESC");
    reveal_strlit(" ORDER BY w.official DESC, installs DESC, w.updated_at DESC");
    reveal_strlit(" ORDER BY w.official DESC, w.updated_at DESC");
    let lead = " ORDER BY w.official DESC"@;
    assert(sort.clause().subrange(0, lead.len() as int) =~= lead);
}

/// Every field of a listing is bound as a parameter: whatever is searched for,
/// the text of the statement is the same, but for the order.
pub proof fn no_value_reaches_the_text(a: ListParams, b: ListParams)
    requires
        a.sort == b.sort,
    ensures
        listing_of(a).sql == listing_of(b).sql,
{
}

/// A listing orders before it pages: the order comes last but for the paging,
/// whichever order it is.
pub proof fn a_listing_orders_before_it_pages(params: ListParams)
    ensures
        " ORDER BY"@.is_prefix_of(params.sort.clause()),
        " LIMIT"@.is_prefix_of(LIST_PAGE@),
        (params.sort.clause() + LIST_PAGE@).is_suffix_of(listing_of(params).sql),
{
    reveal_strlit(" ORDER BY");
    reveal_strlit(" ORDER BY w.official DESC, installs DESC, w.updated_at DESC");
    reveal_strlit(" ORDER BY w.official DESC, w.updated_at DESC");
    reveal_strlit(" LIMIT");
    reveal_strlit(" LIMIT $4 OFFSET $5");
    let lead = " ORDER BY"@;
    assert(params.sort.clause().subrange(0, lead.len() as int) =~= lead);
    assert(LIST_PAGE@.subrange(0, " LIMIT"@.len() as int) =~= " LIMIT"@);
    let tail = params.sort.clause() + LIST_PAGE@;
    let sql = listing_of(params).sql;
    assert(sql.subrange(sql.len() - tail.len(), sql.len() as int) =~= tail);
}

/// Without a `sort=`, and with one that asks for nothing known, a listing is
/// ordered by installs: recency is an explicit choice.
pub proof fn anything_but_recent_is_the_default_order(raw: Seq<char>)
    requires
        trimmed(raw).map_values(|c: char| ascii_lower(c)) != "recent"@,
    ensures
        sort_of(Some(raw)) == Sort::Installs,
        sort_of(None) == Sort::Installs,
{
}

/// Case and stray white space make no difference to `sort=`.
pub proof fn sort_ignores_case_and_white_space(a: Seq<char>, b: Seq<char>)
    requires
        trimmed(a).map_values(|c: char| ascii_lower(c)) == trimmed(b).map_values(
            |c: char| ascii_lower(c),
        ),
    ensures
        sort_of(Some(a)) == sort_of(Some(b)),
{
}

// --- one workflow -----------------------------------------------------------

/// The statement behind one workflow's entry.
pub open spec fn detail_of(slug: Seq<char>) -> StatementView {
    bound(SUMMARY_SELECT@ + DETAIL_FILTER@, seq![ParamView::Text(slug)])
}

/// The statement behind one workflow's entry.
pub fn detail(slug: &str) -> (res: Statement)
    ensures
        res@ == detail_of(slug@),
{
    let sql = SUMMARY_SELECT.to_owned().concat(DETAIL_FILTER);
    let res = Statement::new(sql.as_str()).bind(Param::Text(slug.to_owned()));
    assert(res@.params =~= detail_of(slug@).params);
    res
}

/// Entries are shown under the display name of their publisher, and under the
/// login where there is none, in a listing and alone.
pub proof fn entries_are_shown_under_the_display_name(params: ListParams, slug: Seq<char>)
    ensures
        holds(
            listing_of(params).sql,
            "COALESCE(p.display_name, p.github_login) AS publisher"@,
        ),
        holds(
            detail_of(slug).sql,
            "COALESCE(p.display_name, p.github_login) AS publisher"@,
        ),
{
    let shown =
        "COALESCE(p.display_name, p.github_login) AS publisher"@;
    reveal_strlit(
        "COALESCE(p.display_name, p.github_login) AS publisher",
    );
    reveal_strlit(
        r#"
SELECT w.slug,
       w.title,
       w.description,
       w.tags,
       w.official,
       COALESCE(p.display_name, p.github_login) AS publisher,
       (SELECT max(v.version) FROM registry_versions v
          WHERE v.workflow_id = w.id AND v.withdrawn_at IS NULL) AS latest_version,
       (SELECT count(*) FROM registry_installs i
          WHERE i.workflow_id = w.id
            AND i.last_seen_at > now() - interval '90 days') AS installs,
       w.updated_at
  FROM registry_workflows w
  JOIN registry_publishers p ON p.id = w.publisher_id
"#,
    );
    assert(SUMMARY_SELECT@.subrange(95, 95int + shown.len()) =~= shown);
    assert(occurs_at(SUMMARY_SELECT@, shown, 95));
    lemma_columns_are_in_both(params, slug, shown);
}

/// A withdrawn version is not advertised as the latest, in a listing or alone.
pub proof fn a_withdrawn_version_is_not_the_latest(params: ListParams, slug: Seq<char>)
    ensures
        holds(
            listing_of(params).sql,
            "(SELECT max(v.version) FROM registry_versions v\n          WHERE v.workflow_id = w.id AND v.withdrawn_at IS NULL) AS latest_version"@,
        ),
        holds(
            detail_of(slug).sql,
            "(SELECT max(v.version) FROM registry_versions v\n          WHERE v.workflow_id = w.id AND v.withdrawn_at IS NULL) AS latest_version"@,
        ),
{
    let latest =
        "(SELECT max(v.version) FROM registry_versions v\n          WHERE v.workflow_id = w.id AND v.withdrawn_at IS NULL) AS latest_version"@;
    reveal_strlit(
        "(SELECT max(v.version) FROM registry_versions v\n          WHERE v.workflow_id = w.id AND v.withdrawn_at IS NULL) AS latest_version",
    );
    reveal_strlit(
        r#"
SELECT w.slug,
       w.title,
       w.description,
       w.tags,
       w.official,
       COALESCE(p.display_name, p.github_login) AS publisher,
       (SELECT max(v.version) FROM registry_versions v
          WHERE v.workflow_id = w.id AND v.withdrawn_at IS NULL) AS latest_version,
       (SELECT count(*) FROM registry_installs i
          WHERE i.workflow_id = w.id
            AND i.last_seen_at > now() - interval '90 days') AS installs,
       w.updated_at
  FROM registry_workflows w
  JOIN registry_publishers p ON p.id = w.publisher_id
"#,
    );
    assert(SUMMARY_SELECT@.subrange(157, 157int + latest.len()) =~= latest);
    assert(occurs_at(SUMMARY_SELECT@, latest, 157));
    lemma_columns_are_in_both(params, slug, latest);
}

/// Installs are counted from their records, and only those seen in the last 90
/// days count, in a listing and alone.
pub proof fn only_recent_installs_count(params: ListParams, slug: Seq<char>)
    ensures
        holds(
            listing_of(params).sql,
            "(SELECT count(*) FROM registry_installs i\n          WHERE i.workflow_id = w.id\n            AND i.last_seen_at > now() - interval '90 days') AS installs"@,
        ),
        holds(
            detail_of(slug).sql,
            "(SELECT count(*) FROM registry_installs i\n          WHERE i.workflow_id = w.id\n            AND i.last_seen_at > now() - interval '90 days') AS installs"@,
        ),
{
    let count =
        "(SELECT count(*) FROM registry_installs i\n          WHERE i.workflow_id = w.id\n            AND i.last_seen_at > now() - interval '90 days') AS installs"@;
    reveal_strlit(
        "(SELECT count(*) FROM registry_installs i\n          WHERE i.workflow_id = w.id\n            AND i.last_seen_at > now() - interval '90 days') AS installs",
    );
    reveal_strlit(
        r#"
SELECT w.slug,
       w.title,
       w.description,
       w.tags,
       w.official,
       COALESCE(p.display_name, p.github_login) AS publisher,
       (SELECT max(v.version) FROM registry_versions v
          WHERE v.workflow_id = w.id AND v.withdrawn_at IS NULL) AS latest_version,
       (SELECT count(*) FROM registry_installs i
          WHERE i.workflow_id = w.id
            AND i.last_seen_at > now() - interval '90 days') AS installs,
       w.updated_at
  FROM registry_workflows w
  JOIN registry_publishers p ON p.id = w.publisher_id
"#,
    );
    assert(SUMMARY_SELECT@.subrange(296, 296int + count.len()) =~= count);
    assert(occurs_at(SUMMARY_SELECT@, count, 296));
    lemma_columns_are_in_both(params, slug, count);
}

/// What the columns hold, a listing and an entry alone hold.
proof fn lemma_columns_are_in_both(params: ListParams, slug: Seq<char>, part: Seq<char>)
    requires
        holds(SUMMARY_SELECT@, part),
    ensures
        holds(listing_of(params).sql, part),
        holds(detail_of(slug).sql, part),
{
    let rest = LIST_FILTER@ + params.sort.clause() + LIST_PAGE@;
    a_whole_holds_what_its_pieces_hold(Seq::empty(), SUMMARY_SELECT@, rest, part);
    assert(Seq::empty() + SUMMARY_SELECT@ + rest =~= listing_of(params).sql);
    a_whole_holds_what_its_pieces_hold(Seq::empty(), SUMMARY_SELECT@, DETAIL_FILTER@, part);
    assert(Seq::empty() + SUMMARY_SELECT@ + DETAIL_FILTER@ =~= detail_of(slug).sql);
}

/// What one workflow's entry answers.
pub fn detailed(
    reply: std::result::Result<Option<WorkflowSummary>, DbError>,
) -> (res: Result<WorkflowSummary>)
    ensures
        verdict(res) == found(reply, "workflow"@),
{
    expect_row(reply, "workflow")
}

/// The statement that finds a workflow, listed or not.
pub open spec fn lookup_of(slug: Seq<char>) -> StatementView {
    bound(SELECT_WORKFLOW_ID@, seq![ParamView::Text(slug)])
}

/// The statement that finds a workflow of one publisher.
pub open spec fn owned_lookup_of(slug: Seq<char>, publisher: Uuid) -> StatementView {
    bound(SELECT_OWNED_WORKFLOW_ID@, seq![ParamView::Text(slug), ParamView::Id(publisher)])
}

/// The statement that finds a workflow, listed or not.
pub fn workflow_id(slug: &str) -> (res: Statement)
    ensures
        res@ == lookup_of(slug@),
{
    let res = Statement::new(SELECT_WORKFLOW_ID).bind(Param::Text(slug.to_owned()));
    assert(res@.params =~= lookup_of(slug@).params);
    res
}

/// The statement that resolves a slug to an id the caller is allowed to
/// change.
///
/// It finds nothing when the workflow exists but belongs to someone else, so
/// that is answered 404 rather than 403: a publisher has no business learning
/// which slugs are taken by whom through the difference in status code.
pub fn owned_workflow_id(slug: &str, publisher: &Publisher) -> (res: Statement)
    ensures
        res@ == owned_lookup_of(slug@, publisher.id),
{
    let res = Statement::new(SELECT_OWNED_WORKFLOW_ID).bind(Param::Text(slug.to_owned())).bind(
        Param::Id(publisher.id),
    );
    assert(res@.params =~= owned_lookup_of(slug@, publisher.id).params);
    res
}

/// The workflow a lookup found. One that is not there and one that is not the
/// caller's are both simply not found.
pub fn resolved(reply: std::result::Result<Option<Uuid>, DbError>) -> (res: Result<Uuid>)
    ensures
        verdict(res) == found(reply, "workflow"@),
{
    expect_row(reply, "workflow")
}

/// What a publisher may change is looked up under its own id: the lookup is
/// that of any workflow, narrowed to its publisher, and no other publisher's
/// lookup is the same.
pub proof fn ownership_is_part_of_the_lookup(a: Publisher, b: Publisher, slug: Seq<char>)
    requires
        a.id != b.id,
    ensures
        owned_lookup_of(slug, a.id).params[1] == ParamView::Id(a.id),
        owned_lookup_of(slug, a.id) != owned_lookup_of(slug, b.id),
        SELECT_OWNED_WORKFLOW_ID@ == SELECT_WORKFLOW_ID@ + " AND publisher_id = $2"@,
{
    reveal_strlit("SELECT id FROM registry_workflows WHERE slug = $1");
    reveal_strlit(" AND publisher_id = $2");
    reveal_strlit("SELECT id FROM registry_workflows WHERE slug = $1 AND publisher_id = $2");
    assert(SELECT_OWNED_WORKFLOW_ID@ =~= SELECT_WORKFLOW_ID@ + " AND publisher_id = $2"@);
    assert(owned_lookup_of(slug, a.id).params[1] != owned_lookup_of(slug, b.id).params[1]);
}

/// Someone else's workflow is answered exactly like one that does not exist:
/// neither lookup has a row, and without one the answer is 404 in the same
/// words, never 403.
pub proof fn someone_elses_workflow_is_not_found(
    not_theirs: std::result::Result<Option<Uuid>, DbError>,
    not_there: std::result::Result<Option<Uuid>, DbError>,
)
    requires
        not_theirs is Ok && not_theirs->Ok_0 is None,
        not_there is Ok && not_there->Ok_0 is None,
    ensures
        found(not_theirs, "workflow"@) == found(not_there, "workflow"@),
        found(not_theirs, "workflow"@) is Err,
        found(not_theirs, "workflow"@)->Err_0.status() == 404,
{
}

// --- versions ---------------------------------------------------------------

/// A version history, its workflow to be found.
pub struct VersionsLookup {
    slug: String,
}

/// A version history, to be read.
pub struct VersionsQuery {
    workflow: Uuid,
}

/// The version history of a workflow.
pub fn versions(slug: String) -> (res: VersionsLookup)
    ensures
        res.slug() == slug@,
{
    VersionsLookup { slug }
}

impl VersionsLookup {
    pub closed spec fn slug(&self) -> Seq<char> {
        self.slug@
    }

    pub fn statement(&self) -> (res: Statement)
        ensures
            res@ == lookup_of(self.slug()),
    {
        workflow_id(self.slug.as_str())
    }

    pub fn found(self, reply: std::result::Result<Option<Uuid>, DbError>) -> (res: Result<
        VersionsQuery,
    >)
        ensures
            match found(reply, "workflow"@) {
                Ok(id) => res matches Ok(next) && next.workflow() == id,
                Err(e) => refused(res, e),
            },
    {
        let workflow = resolved(reply)?;
        Ok(VersionsQuery { workflow })
    }
}

impl VersionsQuery {
    pub closed spec fn workflow(&self) -> Uuid {
        self.workflow
    }

    pub fn statement(&self) -> (res: Statement)
        ensures
            res@ == bound(SELECT_VERSIONS@, seq![ParamView::Id(self.workflow())]),
    {
        let res = Statement::new(SELECT_VERSIONS).bind(Param::Id(self.workflow));
        assert(res@.params =~= seq![ParamView::Id(self.workflow())]);
        res
    }

    pub fn rows(
        self,
        reply: std::result::Result<Vec<VersionSummary>, DbError>,
    ) -> (res: Result<Vec<VersionSummary>>)
        ensures
            verdict(res) == answered(reply),
    {
        expect_answer(reply)
    }
}

/// One version as it is stored.
#[derive(Debug)]
pub struct VersionRow {
    pub version: i32,
    pub yaml: String,
    pub changelog: Option<String>,
    pub published_at: Timestamp,
    pub withdrawn: bool,
}

/// A document, its workflow to be found.
pub struct DocumentLookup {
    slug: String,
    version: i32,
}

/// A document, to be read.
pub struct DocumentQuery {
    workflow: Uuid,
    slug: String,
    version: i32,
}

/// The document of one version of a workflow.
pub fn version_document(slug: String, version: i32) -> (res: DocumentLookup)
    ensures
        res.slug() == slug@,
        res.version() == version,
{
    DocumentLookup { slug, version }
}

impl DocumentLookup {
    pub closed spec fn slug(&self) -> Seq<char> {
        self.slug@
    }

    pub closed spec fn version(&self) -> i32 {
        self.version
    }

    pub fn statement(&self) -> (res: Statement)
        ensures
            res@ == lookup_of(self.slug()),
    {
        workflow_id(self.slug.as_str())
    }

    pub fn found(self, reply: std::result::Result<Option<Uuid>, DbError>) -> (res: Result<
        DocumentQuery,
    >)
        ensures
            match found(reply, "workflow"@) {
                Ok(id) => res matches Ok(next) && next.workflow() == id && next.slug()
                    == self.slug() && next.version() == self.version(),
                Err(e) => refused(res, e),
            },
    {
        let workflow = resolved(reply)?;
        Ok(DocumentQuery { workflow, slug: self.slug, version: self.version })
    }
}

impl DocumentQuery {
    pub closed spec fn workflow(&self) -> Uuid {
        self.workflow
    }

    pub closed spec fn slug(&self) -> Seq<char> {
        self.slug@
    }

    pub closed spec fn version(&self) -> i32 {
        self.version
    }

    pub fn statement(&self) -> (res: Statement)
        ensures
            res@ == bound(
                SELECT_VERSION@,
                seq![ParamView::Id(self.workflow()), ParamView::Int(self.version())],
            ),
    {
        let res = Statement::new(SELECT_VERSION).bind(Param::Id(self.workflow)).bind(
            Param::Int(self.version),
        );
        assert(res@.params =~= seq![
            ParamView::Id(self.workflow()),
            ParamView::Int(self.version()),
        ]);
        res
    }

    /// The document, withdrawn or not: a harness holding a withdrawn version
    /// is told, not broken.
    pub fn row(
        self,
        reply: std::result::Result<Option<VersionRow>, DbError>,
    ) -> (res: Result<VersionDocument>)
        ensures
            match found(reply, "version"@) {
                Ok(row) => res matches Ok(doc) && {
                    &&& doc.slug@ == self.slug()
                    &&& doc.version == row.version
                    &&& doc.yaml == row.yaml
                    &&& doc.changelog == row.changelog
                    &&& doc.published_at == row.published_at
                    &&& doc.withdrawn == row.withdrawn
                },
                Err(e) => refused(res, e),
            },
    {
        let row = expect_row(reply, "version")?;
        Ok(
            VersionDocument {
                slug: self.slug,
                version: row.version,
                yaml: row.yaml,
                changelog: row.changelog,
                published_at: row.published_at,
                withdrawn: row.withdrawn,
            },
        )
    }
}

/// A version is read by its number alone, withdrawn or not, and the flag is
/// read along with it.
pub proof fn a_withdrawn_version_is_still_served()
    ensures
        "(withdrawn_at IS NOT NULL)\n           FROM registry_versions\n          WHERE workflow_id = $1 AND version = $2"@.is_suffix_of(
        SELECT_VERSION@),
{
    reveal_strlit(
        "(withdrawn_at IS NOT NULL)\n           FROM registry_versions\n          WHERE workflow_id = $1 AND version = $2",
    );
    reveal_strlit(
        "SELECT version, yaml, changelog, published_at, (withdrawn_at IS NOT NULL)
           FROM registry_versions
          WHERE workflow_id = $1 AND version = $2",
    );
    let tail =
        "(withdrawn_at IS NOT NULL)\n           FROM registry_versions\n          WHERE workflow_id = $1 AND version = $2"@;
    let n = SELECT_VERSION@.len() as int;
    assert(SELECT_VERSION@.subrange(n - tail.len(), n) =~= tail);
}

// --- publishing -------------------------------------------------------------

/// A new workflow that passed its checks, its transaction to be begun.
///
/// Workflow and its first version in one transaction: a workflow with no
/// versions is not something the read side knows how to render.
pub struct CreateBegin {
    publisher: Publisher,
    body: CreateWorkflow,
}

/// A new workflow, its entry to be written.
pub struct CreateEntry {
    publisher: Publisher,
    body: CreateWorkflow,
}

/// A new workflow, its first version to be written.
pub struct CreateFirstVersion {
    workflow: Uuid,
    body: CreateWorkflow,
}

/// A new workflow, its transaction to be committed.
pub struct CreateCommit {
    slug: String,
}

/// Publish a new workflow.
pub fn create(publisher: Publisher, body: CreateWorkflow, max_yaml: usize) -> (res: Result<
    CreateBegin,
>)
    ensures
        match body.verdict(max_yaml) {
            Ok(_) => res matches Ok(next) && next.publisher() == publisher && next.body() == body,
            Err(e) => refused(res, e),
        },
{
    body.validate(max_yaml)?;
    Ok(CreateBegin { publisher, body })
}

impl CreateBegin {
    pub closed spec fn publisher(&self) -> Publisher {
        self.publisher
    }

    pub closed spec fn body(&self) -> CreateWorkflow {
        self.body
    }

    pub fn begun(self, reply: std::result::Result<(), DbError>) -> (res: Result<CreateEntry>)
        ensures
            match answered(reply) {
                Ok(_) => res matches Ok(next) && next.publisher() == self.publisher()
                    && next.body() == self.body(),
                Err(e) => refused(res, e),
            },
    {
        expect_answer(reply)?;
        Ok(CreateEntry { publisher: self.publisher, body: self.body })
    }
}

impl CreateEntry {
    pub closed spec fn publisher(&self) -> Publisher {
        self.publisher
    }

    pub closed spec fn body(&self) -> CreateWorkflow {
        self.body
    }

    pub fn statement(&self) -> (res: Statement)
        ensures
            res@ == bound(
                INSERT_WORKFLOW@,
                seq![
                    ParamView::Text(self.body().slug@),
                    ParamView::Text(self.body().title@),
                    ParamView::Text(self.body().description@),
                    ParamView::Texts(self.body().tags.deep_view()),
                    ParamView::Id(self.publisher().id),
                ],
            ),
    {
        let tags = copy_texts(&self.body.tags);
        assert(tags.deep_view() =~= self.body.tags.deep_view());
        let res = Statement::new(INSERT_WORKFLOW).bind(Param::Text(self.body.slug.clone())).bind(
            Param::Text(self.body.title.clone()),
        ).bind(Param::Text(self.body.description.clone())).bind(Param::Texts(tags)).bind(
            Param::Id(self.publisher.id),
        );
        assert(res@.params =~= seq![
            ParamView::Text(self.body().slug@),
            ParamView::Text(self.body().title@),
            ParamView::Text(self.body().description@),
            ParamView::Texts(self.body().tags.deep_view()),
            ParamView::Id(self.publisher().id),
        ]);
        res
    }

    pub fn inserted(self, reply: std::result::Result<Uuid, DbError>) -> (res: Result<
        CreateFirstVersion,
    >)
        ensures
            match contested(reply, "that slug is already taken"@) {
                Ok(id) => res matches Ok(next) && next.workflow() == id && next.body()
                    == self.body(),
                Err(e) => refused(res, e),
            },
    {
        let workflow = expect_unique(reply, "that slug is already taken")?;
        Ok(CreateFirstVersion { workflow, body: self.body })
    }
}

impl CreateFirstVersion {
    pub closed spec fn workflow(&self) -> Uuid {
        self.workflow
    }

    pub closed spec fn body(&self) -> CreateWorkflow {
        self.body
    }

    pub fn statement(&self) -> (res: Statement)
        ensures
            res@ == bound(
                INSERT_FIRST_VERSION@,
                seq![
                    ParamView::Id(self.workflow()),
                    ParamView::Text(self.body().yaml@),
                    ParamView::MaybeText(self.body().changelog.deep_view()),
                ],
            ),
    {
        let res = Statement::new(INSERT_FIRST_VERSION).bind(Param::Id(self.workflow)).bind(
            Param::Text(self.body.yaml.clone()),
        ).bind(Param::MaybeText(copy_text(&self.body.changelog)));
        assert(res@.params =~= seq![
            ParamView::Id(self.workflow()),
            ParamView::Text(self.body().yaml@),
            ParamView::MaybeText(self.body().changelog.deep_view()),
        ]);
        res
    }

    pub fn inserted(self, reply: std::result::Result<u64, DbError>) -> (res: Result<CreateCommit>)
        ensures
            match answered(reply) {
                Ok(_) => res matches Ok(next) && next.slug() == self.body().slug@,
                Err(e) => refused(res, e),
            },
    {
        expect_answer(reply)?;
        Ok(CreateCommit { slug: self.body.slug })
    }
}

impl CreateCommit {
    pub closed spec fn slug(&self) -> Seq<char> {
        self.slug@
    }

    pub fn committed(self, reply: std::result::Result<(), DbError>) -> (res: Result<Published>)
        ensures
            match answered(reply) {
                Ok(_) => res matches Ok(done) && done.slug@ == self.slug() && done.version == 1,
                Err(e) => refused(res, e),
            },
    {
        expect_answer(reply)?;
        Ok(Published { slug: self.slug, version: 1 })
    }
}

/// A new version that passed its checks, its workflow to be found.
pub struct PublishLookup {
    publisher: Publisher,
    slug: String,
    body: PublishVersion,
}

/// A new version, its transaction to be begun.
pub struct PublishBegin {
    workflow: Uuid,
    slug: String,
    body: PublishVersion,
}

/// A new version, to be written under the next number.
pub struct PublishInsert {
    workflow: Uuid,
    slug: String,
    body: PublishVersion,
}

/// A new version, its workflow to be marked as updated.
pub struct PublishTouch {
    workflow: Uuid,
    slug: String,
    version: i32,
}

/// A new version, its transaction to be committed.
pub struct PublishCommit {
    slug: String,
    version: i32,
}

/// Publish the next version of a workflow.
pub fn publish_version(
    publisher: Publisher,
    slug: String,
    body: PublishVersion,
    max_yaml: usize,
) -> (res: Result<PublishLookup>)
    ensures
        match body.verdict(max_yaml) {
            Ok(_) => res matches Ok(next) && next.publisher() == publisher && next.slug() == slug@
                && next.body() == body,
            Err(e) => refused(res, e),
        },
{
    body.validate(max_yaml)?;
    Ok(PublishLookup { publisher, slug, body })
}

impl PublishLookup {
    pub closed spec fn publisher(&self) -> Publisher {
        self.publisher
    }

    pub closed spec fn slug(&self) -> Seq<char> {
        self.slug@
    }

    pub closed spec fn body(&self) -> PublishVersion {
        self.body
    }

    pub fn statement(&self) -> (res: Statement)
        ensures
            res@ == owned_lookup_of(self.slug(), self.publisher().id),
    {
        owned_workflow_id(self.slug.as_str(), &self.publisher)
    }

    pub fn found(self, reply: std::result::Result<Option<Uuid>, DbError>) -> (res: Result<
        PublishBegin,
    >)
        ensures
            match found(reply, "workflow"@) {
                Ok(id) => res matches Ok(next) && next.workflow() == id && next.slug()
                    == self.slug() && next.body() == self.body(),
                Err(e) => refused(res, e),
            },
    {
        let workflow = resolved(reply)?;
        Ok(PublishBegin { workflow, slug: self.slug, body: self.body })
    }
}

impl PublishBegin {
    pub closed spec fn workflow(&self) -> Uuid {
        self.workflow
    }

    pub closed spec fn slug(&self) -> Seq<char> {
        self.slug@
    }

    pub closed spec fn body(&self) -> PublishVersion {
        self.body
    }

    pub fn begun(self, reply: std::result::Result<(), DbError>) -> (res: Result<PublishInsert>)
        ensures
            match answered(reply) {
                Ok(_) => res matches Ok(next) && next.workflow() == self.workflow() && next.slug()
                    == self.slug() && next.body() == self.body(),
                Err(e) => refused(res, e),
            },
    {
        expect_answer(reply)?;
        Ok(PublishInsert { workflow: self.workflow, slug: self.slug, body: self.body })
    }
}

impl PublishInsert {
    pub closed spec fn workflow(&self) -> Uuid {
        self.workflow
    }

    pub closed spec fn slug(&self) -> Seq<char> {
        self.slug@
    }

    pub closed spec fn body(&self) -> PublishVersion {
        self.body
    }

    pub fn statement(&self) -> (res: Statement)
        ensures
            res@ == bound(
                INSERT_NEXT_VERSION@,
                seq![
                    ParamView::Id(self.workflow()),
                    ParamView::Text(self.body().yaml@),
                    ParamView::MaybeText(self.body().changelog.deep_view()),
                ],
            ),
    {
        let res = Statement::new(INSERT_NEXT_VERSION).bind(Param::Id(self.workflow)).bind(
            Param::Text(self.body.yaml.clone()),
        ).bind(Param::MaybeText(copy_text(&self.body.changelog)));
        assert(res@.params =~= seq![
            ParamView::Id(self.workflow()),
            ParamView::Text(self.body().yaml@),
            ParamView::MaybeText(self.body().changelog.deep_view()),
        ]);
        res
    }

    pub fn inserted(self, reply: std::result::Result<i32, DbError>) -> (res: Result<PublishTouch>)
        ensures
            match contested(reply, "a concurrent publish took that version; retry"@) {
                Ok(version) => res matches Ok(next) && next.workflow() == self.workflow()
                    && next.slug() == self.slug() && next.version() == version,
                Err(e) => refused(res, e),
            },
    {
        let version: i32 = expect_unique(reply, "a concurrent publish took that version; retry")?;
        Ok(PublishTouch { workflow: self.workflow, slug: self.slug, version })
    }
}

impl PublishTouch {
    pub closed spec fn workflow(&self) -> Uuid {
        self.workflow
    }

    pub closed spec fn slug(&self) -> Seq<char> {
        self.slug@
    }

    pub closed spec fn version(&self) -> i32 {
        self.version
    }

    pub fn statement(&self) -> (res: Statement)
        ensures
            res@ == bound(TOUCH_WORKFLOW@, seq![ParamView::Id(self.workflow())]),
    {
        let res = Statement::new(TOUCH_WORKFLOW).bind(Param::Id(self.workflow));
        assert(res@.params =~= seq![ParamView::Id(self.workflow())]);
        res
    }

    pub fn touched(self, reply: std::result::Result<u64, DbError>) -> (res: Result<PublishCommit>)
        ensures
            match answered(reply) {
                Ok(_) => res matches Ok(next) && next.slug() == self.slug() && next.version()
                    == self.version(),
                Err(e) => refused(res, e),
            },
    {
        expect_answer(reply)?;
        Ok(PublishCommit { slug: self.slug, version: self.version })
    }
}

impl PublishCommit {
    pub closed spec fn slug(&self) -> Seq<char> {
        self.slug@
    }

    pub closed spec fn version(&self) -> i32 {
        self.version
    }

    pub fn committed(self, reply: std::result::Result<(), DbError>) -> (res: Result<Published>)
        ensures
            match answered(reply) {
                Ok(_) => res matches Ok(done) && done.slug@ == self.slug() && done.version
                    == self.version(),
                Err(e) => refused(res, e),
            },
    {
        expect_answer(reply)?;
        Ok(Published { slug: self.slug, version: self.version })
    }
}

/// The number of a version is derived, not supplied: one more than the largest
/// its workflow has, or one if it has none.
pub proof fn the_next_version_is_derived()
    ensures
        INSERT_NEXT_VERSION@ == "INSERT INTO registry_versions (workflow_id, version, yaml, changelog)"@
            + "\n         SELECT $1, COALESCE(max(version), 0) + 1, $2, $3"@
            + "\n           FROM registry_versions WHERE workflow_id = $1"@
            + "\n         RETURNING version"@,
{
    reveal_strlit("INSERT INTO registry_versions (workflow_id, version, yaml, changelog)");
    reveal_strlit("\n         SELECT $1, COALESCE(max(version), 0) + 1, $2, $3");
    reveal_strlit("\n           FROM registry_versions WHERE workflow_id = $1");
    reveal_strlit("\n         RETURNING version");
    reveal_strlit(
        "INSERT INTO registry_versions (workflow_id, version, yaml, changelog)
         SELECT $1, COALESCE(max(version), 0) + 1, $2, $3
           FROM registry_versions WHERE workflow_id = $1
         RETURNING version",
    );
    assert(INSERT_NEXT_VERSION@ =~= "INSERT INTO registry_versions (workflow_id, version, yaml, changelog)"@
            + "\n         SELECT $1, COALESCE(max(version), 0) + 1, $2, $3"@
            + "\n           FROM registry_versions WHERE workflow_id = $1"@
            + "\n         RETURNING version"@);
}

// --- amending ---------------------------------------------------------------

/// An amendment that passed its checks, its workflow to be found.
pub struct UpdateLookup {
    publisher: Publisher,
    slug: String,
    body: UpdateWorkflow,
}

/// An amendment, to be written.
pub struct UpdateWrite {
    workflow: Uuid,
    body: UpdateWorkflow,
}

/// Amend the title, description or tags of a workflow.
pub fn update(publisher: Publisher, slug: String, body: UpdateWorkflow) -> (res: Result<
    UpdateLookup,
>)
    ensures
        match body.verdict() {
            Ok(_) => res matches Ok(next) && next.publisher() == publisher && next.slug() == slug@
                && next.body() == body,
            Err(e) => refused(res, e),
        },
{
    body.validate()?;
    Ok(UpdateLookup { publisher, slug, body })
}

impl UpdateLookup {
    pub closed spec fn publisher(&self) -> Publisher {
        self.publisher
    }

    pub closed spec fn slug(&self) -> Seq<char> {
        self.slug@
    }

    pub closed spec fn body(&self) -> UpdateWorkflow {
        self.body
    }

    pub fn statement(&self) -> (res: Statement)
        ensures
            res@ == owned_lookup_of(self.slug(), self.publisher().id),
    {
        owned_workflow_id(self.slug.as_str(), &self.publisher)
    }

    pub fn found(self, reply: std::result::Result<Option<Uuid>, DbError>) -> (res: Result<
        UpdateWrite,
    >)
        ensures
            match found(reply, "workflow"@) {
                Ok(id) => res matches Ok(next) && next.workflow() == id && next.body()
                    == self.body(),
                Err(e) => refused(res, e),
            },
    {
        let workflow = resolved(reply)?;
        Ok(UpdateWrite { workflow, body: self.body })
    }
}

impl UpdateWrite {
    pub closed spec fn workflow(&self) -> Uuid {
        self.workflow
    }

    pub closed spec fn body(&self) -> UpdateWorkflow {
        self.body
    }

    pub fn statement(&self) -> (res: Statement)
        ensures
            res@ == bound(
                UPDATE_WORKFLOW@,
                seq![
                    ParamView::Id(self.workflow()),
                    ParamView::MaybeText(self.body().title.deep_view()),
                    ParamView::MaybeText(self.body().description.deep_view()),
                    ParamView::MaybeTexts(self.body().tags.deep_view()),
                ],
            ),
    {
        let tags = match &self.body.tags {
            Some(tags) => {
                let copy = copy_texts(tags);
                assert(copy.deep_view() =~= tags.deep_view());
                Some(copy)
            },
            None => None,
        };
        assert(tags.deep_view() == self.body.tags.deep_view());
        let res = Statement::new(UPDATE_WORKFLOW).bind(Param::Id(self.workflow)).bind(
            Param::MaybeText(copy_text(&self.body.title)),
        ).bind(Param::MaybeText(copy_text(&self.body.description))).bind(Param::MaybeTexts(tags));
        assert(res@.params =~= seq![
            ParamView::Id(self.workflow()),
            ParamView::MaybeText(self.body().title.deep_view()),
            ParamView::MaybeText(self.body().description.deep_view()),
            ParamView::MaybeTexts(self.body().tags.deep_view()),
        ]);
        res
    }

    pub fn written(self, reply: std::result::Result<u64, DbError>) -> (res: Result<Status>)
        ensures
            match answered(reply) {
                Ok(_) => res matches Ok(done) && done.status@ == "updated"@,
                Err(e) => refused(res, e),
            },
    {
        expect_answer(reply)?;
        Ok(Status { status: "updated" })
    }
}

/// A field that an update leaves out keeps its value rather than being nulled.
pub proof fn an_omitted_field_keeps_its_value()
    ensures
        UPDATE_WORKFLOW@ == "UPDATE registry_workflows\n            SET title = COALESCE($2, title)"@
            + ",\n                description = COALESCE($3, description)"@
            + ",\n                tags = COALESCE($4, tags)"@
            + ",\n                updated_at = now()"@
            + "\n          WHERE id = $1"@,
{
    reveal_strlit("UPDATE registry_workflows\n            SET title = COALESCE($2, title)");
    reveal_strlit(",\n                description = COALESCE($3, description)");
    reveal_strlit(",\n                tags = COALESCE($4, tags)");
    reveal_strlit(",\n                updated_at = now()");
    reveal_strlit("\n          WHERE id = $1");
    reveal_strlit(
        "UPDATE registry_workflows
            SET title = COALESCE($2, title),
                description = COALESCE($3, description),
                tags = COALESCE($4, tags),
                updated_at = now()
          WHERE id = $1",
    );
    assert(UPDATE_WORKFLOW@ =~= "UPDATE registry_workflows\n            SET title = COALESCE($2, title)"@
            + ",\n                description = COALESCE($3, description)"@
            + ",\n                tags = COALESCE($4, tags)"@
            + ",\n                updated_at = now()"@
            + "\n          WHERE id = $1"@);
}

// --- unlisting --------------------------------------------------------------

/// A workflow to be unlisted, to be found first.
pub struct UnlistLookup {
    publisher: Publisher,
    slug: String,
}

/// A workflow to be unlisted.
pub struct UnlistWrite {
    workflow: Uuid,
}

/// The statement that unlists a workflow.
pub open spec fn unlisting_of(workflow: Uuid) -> StatementView {
    bound(UNLIST_WORKFLOW@, seq![ParamView::Id(workflow)])
}

/// Take a workflow out of the library.
pub fn unlist(publisher: Publisher, slug: String) -> (res: UnlistLookup)
    ensures
        res.publisher() == publisher,
        res.slug() == slug@,
{
    UnlistLookup { publisher, slug }
}

impl UnlistLookup {
    pub closed spec fn publisher(&self) -> Publisher {
        self.publisher
    }

    pub closed spec fn slug(&self) -> Seq<char> {
        self.slug@
    }

    pub fn statement(&self) -> (res: Statement)
        ensures
            res@ == owned_lookup_of(self.slug(), self.publisher().id),
    {
        owned_workflow_id(self.slug.as_str(), &self.publisher)
    }

    pub fn found(self, reply: std::result::Result<Option<Uuid>, DbError>) -> (res: Result<
        UnlistWrite,
    >)
        ensures
            match found(reply, "workflow"@) {
                Ok(id) => res matches Ok(next) && next.workflow() == id,
                Err(e) => refused(res, e),
            },
    {
        let workflow = resolved(reply)?;
        Ok(UnlistWrite { workflow })
    }
}

impl UnlistWrite {
    pub closed spec fn workflow(&self) -> Uuid {
        self.workflow
    }

    pub fn statement(&self) -> (res: Statement)
        ensures
            res@ == unlisting_of(self.workflow()),
    {
        let res = Statement::new(UNLIST_WORKFLOW).bind(Param::Id(self.workflow));
        assert(res@.params =~= unlisting_of(self.workflow()).params);
        res
    }

    pub fn written(self, reply: std::result::Result<u64, DbError>) -> (res: Result<Status>)
        ensures
            match answered(reply) {
                Ok(_) => res matches Ok(done) && done.status@ == "unlisted"@,
                Err(e) => refused(res, e),
            },
    {
        expect_answer(reply)?;
        Ok(Status { status: "unlisted" })
    }
}

/// Unlisting is soft. It sets one column and deletes nothing. The listing and
/// the entry alone are of workflows without that column set; the lookup behind
/// the versions and their documents, and the statements that read those, do not
/// ask for it, so installs that already took a workflow keep resolving.
pub proof fn unlisting_hides_an_entry_and_nothing_else(params: ListParams, slug: Seq<char>)
    ensures
        holds(listing_of(params).sql, " WHERE w.unlisted_at IS NULL\n   AND "@),
        holds(detail_of(slug).sql, " AND w.unlisted_at IS NULL"@),
        !holds(lookup_of(slug).sql, "unlisted_at"@),
        !holds(SELECT_VERSIONS@, "unlisted_at"@),
        !holds(SELECT_VERSION@, "unlisted_at"@),
        UNLIST_WORKFLOW@ == "UPDATE registry_workflows SET "@ + "unlisted_at = now()"@
            + " WHERE id = $1"@,
{
    lemma_listings_ask_for_the_column(params, slug);
    lemma_the_lookup_does_not_ask();
    lemma_the_history_does_not_ask();
    lemma_the_document_does_not_ask();
    reveal_strlit("UPDATE registry_workflows SET ");
    reveal_strlit("unlisted_at = now()");
    reveal_strlit(" WHERE id = $1");
    reveal_strlit("UPDATE registry_workflows SET unlisted_at = now() WHERE id = $1");
    assert(UNLIST_WORKFLOW@ =~= "UPDATE registry_workflows SET "@ + "unlisted_at = now()"@
        + " WHERE id = $1"@);
}

proof fn lemma_listings_ask_for_the_column(params: ListParams, slug: Seq<char>)
    ensures
        holds(listing_of(params).sql, " WHERE w.unlisted_at IS NULL\n   AND "@),
        holds(detail_of(slug).sql, " AND w.unlisted_at IS NULL"@),
{
    let listed = " WHERE w.unlisted_at IS NULL\n   AND "@;
    reveal_strlit(" WHERE w.unlisted_at IS NULL\n   AND ");
    reveal_strlit(
        r#"
 WHERE w.unlisted_at IS NULL
   AND ($1::text IS NULL OR $1 = ANY(w.tags))
   AND ($2::text IS NULL OR w.title ILIKE '%' || $2 || '%'
                         OR w.description ILIKE '%' || $2 || '%')
   AND ($3::boolean IS NULL OR w.official = $3)
"#,
    );
    assert(LIST_FILTER@.subrange(1, 1int + listed.len()) =~= listed);
    assert(occurs_at(LIST_FILTER@, listed, 1));
    let rest = params.sort.clause() + LIST_PAGE@;
    a_whole_holds_what_its_pieces_hold(SUMMARY_SELECT@, LIST_FILTER@, rest, listed);
    assert(SUMMARY_SELECT@ + LIST_FILTER@ + rest =~= listing_of(params).sql);

    let alone = " AND w.unlisted_at IS NULL"@;
    reveal_strlit(" AND w.unlisted_at IS NULL");
    reveal_strlit(" WHERE w.slug = $1 AND w.unlisted_at IS NULL");
    assert(DETAIL_FILTER@.subrange(18, 18int + alone.len()) =~= alone);
    assert(occurs_at(DETAIL_FILTER@, alone, 18));
    a_whole_holds_what_its_pieces_hold(SUMMARY_SELECT@, DETAIL_FILTER@, Seq::empty(), alone);
    assert(SUMMARY_SELECT@ + DETAIL_FILTER@ + Seq::empty() =~= detail_of(slug).sql);
}

proof fn lemma_the_lookup_does_not_ask()
    ensures
        !holds(SELECT_WORKFLOW_ID@, "unlisted_at"@),
{
    reveal_strlit("unlisted_at");
    reveal_strlit("SELECT id FROM registry_workflows WHERE slug = $1");
    reveal_with_fuel(pairless, 21);
    assert(pairless(SELECT_WORKFLOW_ID@, 'u', 'n', 20));
    assert(pairless(SELECT_WORKFLOW_ID@, 'u', 'n', 40));
    lemma_pairless_holds_not(SELECT_WORKFLOW_ID@, "unlisted_at"@);
}

proof fn lemma_the_history_does_not_ask()
    ensures
        !holds(SELECT_VERSIONS@, "unlisted_at"@),
{
    reveal_strlit("unlisted_at");
    reveal_strlit(
        "SELECT version, changelog, published_at, (withdrawn_at IS NOT NULL) AS withdrawn
           FROM registry_versions
          WHERE workflow_id = $1
          ORDER BY version DESC",
    );
    reveal_with_fuel(pairless, 21);
    assert(pairless(SELECT_VERSIONS@, 'u', 'n', 20));
    assert(pairless(SELECT_VERSIONS@, 'u', 'n', 40));
    assert(pairless(SELECT_VERSIONS@, 'u', 'n', 60));
    assert(pairless(SELECT_VERSIONS@, 'u', 'n', 80));
    assert(pairless(SELECT_VERSIONS@, 'u', 'n', 100));
    assert(pairless(SELECT_VERSIONS@, 'u', 'n', 120));
    assert(pairless(SELECT_VERSIONS@, 'u', 'n', 140));
    assert(pairless(SELECT_VERSIONS@, 'u', 'n', 160));
    lemma_pairless_holds_not(SELECT_VERSIONS@, "unlisted_at"@);
}

proof fn lemma_the_document_does_not_ask()
    ensures
        !holds(SELECT_VERSION@, "unlisted_at"@),
{
    reveal_strlit("unlisted_at");
    reveal_strlit(
        "SELECT version, yaml, changelog, published_at, (withdrawn_at IS NOT NULL)
           FROM registry_versions
          WHERE workflow_id = $1 AND version = $2",
    );
    reveal_with_fuel(pairless, 21);
    assert(pairless(SELECT_VERSION@, 'u', 'n', 20));
    assert(pairless(SELECT_VERSION@, 'u', 'n', 40));
    assert(pairless(SELECT_VERSION@, 'u', 'n', 60));
    assert(pairless(SELECT_VERSION@, 'u', 'n', 80));
    assert(pairless(SELECT_VERSION@, 'u', 'n', 100));
    assert(pairless(SELECT_VERSION@, 'u', 'n', 120));
    assert(pairless(SELECT_VERSION@, 'u', 'n', 140));
    lemma_pairless_holds_not(SELECT_VERSION@, "unlisted_at"@);
}

} // verus!
