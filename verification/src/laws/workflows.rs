//! What browsing, publishing, amending and unlisting ask of the database, and
//! what they answer.
use crate::auth::Publisher;
use crate::db::{DbError, ParamView, Statement};
use crate::error::{Error, Result};
use crate::laws::replies::{follows, follows_race, follows_row, is_statement, lemma_is_statement};
use crate::laws::text::{
    is_trimmed, trimming_leaves_one_text, trimming_takes_off_white_space_and_nothing_else,
};
use crate::models::{
    CreateWorkflow, PublishVersion, Published, Status, UpdateWorkflow, VersionDocument,
    VersionSummary, WorkflowSummary,
};
use crate::routes::workflows::{
    create, detail, detailed, list, listed, owned_workflow_id, publish_version, resolved, unlist,
    update, version_document, versions, workflow_id, CreateBegin, CreateCommit, CreateEntry,
    CreateFirstVersion, DocumentLookup, DocumentQuery, ListParams, PublishBegin, PublishCommit,
    PublishInsert, PublishLookup, PublishTouch, Sort, UnlistLookup, UnlistWrite, UpdateLookup,
    UpdateWrite, VersionRow, VersionsLookup, VersionsQuery,
};
use crate::text::{ascii_lower, trimmed};
use uuid::Uuid;
use vstd::prelude::*;

verus! {

// --- browsing ---------------------------------------------------------------

/// Whether a word is `recent`, in capitals or not.
pub open spec fn reads_recent(word: Seq<char>) -> bool {
    &&& word.len() == 6
    &&& word[0] == 'r' || word[0] == 'R'
    &&& word[1] == 'e' || word[1] == 'E'
    &&& word[2] == 'c' || word[2] == 'C'
    &&& word[3] == 'e' || word[3] == 'E'
    &&& word[4] == 'n' || word[4] == 'N'
    &&& word[5] == 't' || word[5] == 'T'
}

/// A listing is in order of recency exactly if `recent` is asked for, in
/// capitals or not, with white space around it or not. Anything else, and
/// nothing, means the order by installs.
pub proof fn the_order_is_asked_for(
    raw: Option<&str>,
    word: Seq<char>,
    res: Sort,
    default: Sort,
    clause: &'static str,
)
    requires
        call_ensures(Sort::from_param, (raw,), res),
        raw matches Some(r) ==> is_trimmed(r@, word),
        call_ensures(Sort::default, (), default),
        call_ensures(Sort::order, (res,), clause),
    ensures
        res == Sort::Recent <==> raw is Some && reads_recent(word),
        default == Sort::Installs,
        res == Sort::Installs ==> clause@ == " ORDER BY w.official DESC, installs DESC, w.updated_at DESC"@,
        res == Sort::Recent ==> clause@ == " ORDER BY w.official DESC, w.updated_at DESC"@,
{
    reveal_strlit("recent");
    if let Some(r) = raw {
        trimming_takes_off_white_space_and_nothing_else(r@);
        trimming_leaves_one_text(r@, trimmed(r@), word);
        let lowered = word.map_values(|c: char| ascii_lower(c));
        assert(lowered.len() == word.len());
        if reads_recent(word) {
            assert(lowered =~= "recent"@);
        }
        if lowered == "recent"@ {
            assert(lowered[0] == 'r' && lowered[1] == 'e' && lowered[2] == 'c' && lowered[3] == 'e'
                && lowered[4] == 'n' && lowered[5] == 't');
            assert(reads_recent(word));
        }
    }
}

/// How many entries a page holds: fifty unless asked otherwise, and between one
/// and two hundred whatever is asked.
pub open spec fn is_page(asked: Option<i64>, limit: i64) -> bool {
    &&& asked is None ==> limit == 50
    &&& asked matches Some(n) ==> {
        &&& n < 1 ==> limit == 1
        &&& 1 <= n <= 200 ==> limit == n
        &&& n > 200 ==> limit == 200
    }
}

/// How many entries are skipped: none unless asked for, and never fewer.
pub open spec fn is_offset(asked: Option<i64>, offset: i64) -> bool {
    &&& asked is None ==> offset == 0
    &&& asked matches Some(n) ==> {
        &&& n < 0 ==> offset == 0
        &&& n >= 0 ==> offset == n
    }
}

/// A listing binds the tag, the search term and the badge just as they were
/// asked for, whatever the other parameters are, and one page of what they
/// select, in the order asked for.
pub proof fn a_listing_binds_what_is_asked_for(
    params: ListParams,
    st: Statement,
    limit: i64,
    offset: i64,
)
    requires
        call_ensures(list, (params,), st),
        is_page(params.limit, limit),
        is_offset(params.offset, offset),
    ensures
        is_statement(
            st,
            r#"
SELECT w.slug,
       w.title,
       w.description,
       w.tags,
       w.official,
       COALESCE(p.display_name, p.github_login) AS publisher,
       (SELECT max(v.version) FROM registry_versions v
          WHERE v.workflow_id = w.id AND v.withdrawn_at IS NULL) AS latest_version,
       (SELECT count(*) FROM registry_installs i
          WHERE i.workflow_id = w.id
            AND i.last_seen_at > now() - interval '90 days') AS installs,
       w.updated_at
  FROM registry_workflows w
  JOIN registry_publishers p ON p.id = w.publisher_id
"#@
                + r#"
 WHERE w.unlisted_at IS NULL
   AND ($1::text IS NULL OR $1 = ANY(w.tags))
   AND ($2::text IS NULL OR w.title ILIKE '%' || $2 || '%'
                         OR w.description ILIKE '%' || $2 || '%')
   AND ($3::boolean IS NULL OR w.official = $3)
"#@
                + (if params.sort == Sort::Recent {
                    " ORDER BY w.official DESC, w.updated_at DESC"@
                } else {
                    " ORDER BY w.official DESC, installs DESC, w.updated_at DESC"@
                })
                + " LIMIT $4 OFFSET $5"@,
            seq![
                ParamView::MaybeText(params.tag.deep_view()),
                ParamView::MaybeText(params.q.deep_view()),
                ParamView::MaybeBool(params.official),
                ParamView::BigInt(limit),
                ParamView::BigInt(offset),
            ],
        ),
{
    lemma_is_statement(
        st,
        r#"
SELECT w.slug,
       w.title,
       w.description,
       w.tags,
       w.official,
       COALESCE(p.display_name, p.github_login) AS publisher,
       (SELECT max(v.version) FROM registry_versions v
          WHERE v.workflow_id = w.id AND v.withdrawn_at IS NULL) AS latest_version,
       (SELECT count(*) FROM registry_installs i
          WHERE i.workflow_id = w.id
            AND i.last_seen_at > now() - interval '90 days') AS installs,
       w.updated_at
  FROM registry_workflows w
  JOIN registry_publishers p ON p.id = w.publisher_id
"#@
            + r#"
 WHERE w.unlisted_at IS NULL
   AND ($1::text IS NULL OR $1 = ANY(w.tags))
   AND ($2::text IS NULL OR w.title ILIKE '%' || $2 || '%'
                         OR w.description ILIKE '%' || $2 || '%')
   AND ($3::boolean IS NULL OR w.official = $3)
"#@
            + (if params.sort == Sort::Recent {
                " ORDER BY w.official DESC, w.updated_at DESC"@
            } else {
                " ORDER BY w.official DESC, installs DESC, w.updated_at DESC"@
            })
            + " LIMIT $4 OFFSET $5"@,
        seq![
            ParamView::MaybeText(params.tag.deep_view()),
            ParamView::MaybeText(params.q.deep_view()),
            ParamView::MaybeBool(params.official),
            ParamView::BigInt(limit),
            ParamView::BigInt(offset),
        ],
    );
}

/// A listing answers all of its rows, as they came.
pub proof fn a_listing_answers_its_rows(
    reply: std::result::Result<Vec<WorkflowSummary>, DbError>,
    res: Result<Vec<WorkflowSummary>>,
)
    requires
        call_ensures(listed, (reply,), res),
    ensures
        follows(reply, res),
        reply matches Ok(rows) ==> res == Ok::<Vec<WorkflowSummary>, Error>(rows),
{
}

/// An entry is looked for under the slug that is asked for, and is answered as
/// it came or is not found.
pub proof fn an_entry_is_found_by_its_slug(
    slug: &str,
    st: Statement,
    reply: std::result::Result<Option<WorkflowSummary>, DbError>,
    res: Result<WorkflowSummary>,
)
    requires
        call_ensures(detail, (slug,), st),
        call_ensures(detailed, (reply,), res),
    ensures
        follows_row(reply, res, "workflow"@),
        reply matches Ok(Some(row)) ==> res == Ok::<WorkflowSummary, Error>(row),
        is_statement(
            st,
            r#"
SELECT w.slug,
       w.title,
       w.description,
       w.tags,
       w.official,
       COALESCE(p.display_name, p.github_login) AS publisher,
       (SELECT max(v.version) FROM registry_versions v
          WHERE v.workflow_id = w.id AND v.withdrawn_at IS NULL) AS latest_version,
       (SELECT count(*) FROM registry_installs i
          WHERE i.workflow_id = w.id
            AND i.last_seen_at > now() - interval '90 days') AS installs,
       w.updated_at
  FROM registry_workflows w
  JOIN registry_publishers p ON p.id = w.publisher_id
"#@
                + " WHERE w.slug = $1 AND w.unlisted_at IS NULL"@,
            seq![ParamView::Text(slug@)],
        ),
{
    lemma_is_statement(
        st,
        r#"
SELECT w.slug,
       w.title,
       w.description,
       w.tags,
       w.official,
       COALESCE(p.display_name, p.github_login) AS publisher,
       (SELECT max(v.version) FROM registry_versions v
          WHERE v.workflow_id = w.id AND v.withdrawn_at IS NULL) AS latest_version,
       (SELECT count(*) FROM registry_installs i
          WHERE i.workflow_id = w.id
            AND i.last_seen_at > now() - interval '90 days') AS installs,
       w.updated_at
  FROM registry_workflows w
  JOIN registry_publishers p ON p.id = w.publisher_id
"#@
            + " WHERE w.slug = $1 AND w.unlisted_at IS NULL"@,
        seq![ParamView::Text(slug@)],
    );
}

/// A slug is looked up as it is, and with its publisher where only that may
/// change the workflow. The id that is found is the one that is used.
pub proof fn a_slug_is_looked_up(
    slug: &str,
    publisher: Publisher,
    any: Statement,
    own: Statement,
    reply: std::result::Result<Option<Uuid>, DbError>,
    res: Result<Uuid>,
)
    requires
        call_ensures(workflow_id, (slug,), any),
        call_ensures(owned_workflow_id, (slug, &publisher), own),
        call_ensures(resolved, (reply,), res),
    ensures
        follows_row(reply, res, "workflow"@),
        reply matches Ok(Some(id)) ==> res == Ok::<Uuid, Error>(id),
        is_statement(
            any,
            "SELECT id FROM registry_workflows WHERE slug = $1"@,
            seq![ParamView::Text(slug@)],
        ),
        is_statement(
            own,
            "SELECT id FROM registry_workflows WHERE slug = $1 AND publisher_id = $2"@,
            seq![ParamView::Text(slug@), ParamView::Id(publisher.id)],
        ),
{
    lemma_is_statement(
        any,
        "SELECT id FROM registry_workflows WHERE slug = $1"@,
        seq![ParamView::Text(slug@)],
    );
    lemma_is_statement(
        own,
        "SELECT id FROM registry_workflows WHERE slug = $1 AND publisher_id = $2"@,
        seq![ParamView::Text(slug@), ParamView::Id(publisher.id)],
    );
}

// --- versions ---------------------------------------------------------------

/// A version history is that of the workflow the slug was looked up to, and is
/// answered as it came.
pub proof fn a_history_is_of_its_workflow(
    slug: String,
    lookup: VersionsLookup,
    st: Statement,
    id: Uuid,
    query: VersionsQuery,
    next: Statement,
)
    requires
        call_ensures(versions, (slug,), lookup),
        call_ensures(VersionsLookup::statement, (&lookup,), st),
        call_ensures(VersionsLookup::found, (lookup, Ok(Some(id))), Ok(query)),
        call_ensures(VersionsQuery::statement, (&query,), next),
    ensures
        is_statement(
            st,
            "SELECT id FROM registry_workflows WHERE slug = $1"@,
            seq![ParamView::Text(slug@)],
        ),
        is_statement(
            next,
            "SELECT version, changelog, published_at, (withdrawn_at IS NOT NULL) AS withdrawn
           FROM registry_versions
          WHERE workflow_id = $1
          ORDER BY version DESC"@,
            seq![ParamView::Id(id)],
        ),
{
    lemma_is_statement(
        st,
        "SELECT id FROM registry_workflows WHERE slug = $1"@,
        seq![ParamView::Text(slug@)],
    );
    lemma_is_statement(
        next,
        "SELECT version, changelog, published_at, (withdrawn_at IS NOT NULL) AS withdrawn
           FROM registry_versions
          WHERE workflow_id = $1
          ORDER BY version DESC"@,
        seq![ParamView::Id(id)],
    );
}

/// A version history fails where a lookup or the reading of it does.
pub proof fn a_history_can_fail(
    lookup: VersionsLookup,
    found: std::result::Result<Option<Uuid>, DbError>,
    res: Result<VersionsQuery>,
    query: VersionsQuery,
    rows: std::result::Result<Vec<VersionSummary>, DbError>,
    answer: Result<Vec<VersionSummary>>,
)
    requires
        call_ensures(VersionsLookup::found, (lookup, found), res),
        call_ensures(VersionsQuery::rows, (query, rows), answer),
    ensures
        follows_row(found, res, "workflow"@),
        follows(rows, answer),
        rows matches Ok(r) ==> answer == Ok::<Vec<VersionSummary>, Error>(r),
{
}

/// A document is that of the version asked for of the workflow the slug was
/// looked up to. It is answered as it is stored, withdrawn or not, under the slug
/// that was asked for.
pub proof fn a_document_is_of_its_version(
    slug: String,
    version: i32,
    lookup: DocumentLookup,
    st: Statement,
    id: Uuid,
    query: DocumentQuery,
    next: Statement,
    row: VersionRow,
    document: VersionDocument,
)
    requires
        call_ensures(version_document, (slug, version), lookup),
        call_ensures(DocumentLookup::statement, (&lookup,), st),
        call_ensures(DocumentLookup::found, (lookup, Ok(Some(id))), Ok(query)),
        call_ensures(DocumentQuery::statement, (&query,), next),
        call_ensures(DocumentQuery::row, (query, Ok(Some(row))), Ok(document)),
    ensures
        document.slug@ == slug@,
        document.version == row.version,
        document.yaml@ == row.yaml@,
        document.changelog.deep_view() == row.changelog.deep_view(),
        document.published_at == row.published_at,
        document.withdrawn == row.withdrawn,
        is_statement(
            st,
            "SELECT id FROM registry_workflows WHERE slug = $1"@,
            seq![ParamView::Text(slug@)],
        ),
        is_statement(
            next,
            "SELECT version, yaml, changelog, published_at, (withdrawn_at IS NOT NULL)
           FROM registry_versions
          WHERE workflow_id = $1 AND version = $2"@,
            seq![ParamView::Id(id), ParamView::Int(version)],
        ),
{
    lemma_is_statement(
        st,
        "SELECT id FROM registry_workflows WHERE slug = $1"@,
        seq![ParamView::Text(slug@)],
    );
    lemma_is_statement(
        next,
        "SELECT version, yaml, changelog, published_at, (withdrawn_at IS NOT NULL)
           FROM registry_versions
          WHERE workflow_id = $1 AND version = $2"@,
        seq![ParamView::Id(id), ParamView::Int(version)],
    );
}

/// A document fails where its workflow or its version is not there, or where
/// the database does.
pub proof fn a_document_can_fail(
    lookup: DocumentLookup,
    found: std::result::Result<Option<Uuid>, DbError>,
    res: Result<DocumentQuery>,
    query: DocumentQuery,
    row: std::result::Result<Option<VersionRow>, DbError>,
    answer: Result<VersionDocument>,
)
    requires
        call_ensures(DocumentLookup::found, (lookup, found), res),
        call_ensures(DocumentQuery::row, (query, row), answer),
    ensures
        follows_row(found, res, "workflow"@),
        follows_row(row, answer, "version"@),
{
}

// --- publishing -------------------------------------------------------------

/// A new workflow goes on exactly if it is valid, and is refused for what it is
/// not valid for.
pub proof fn only_a_valid_workflow_is_written(
    publisher: Publisher,
    body: CreateWorkflow,
    max_yaml: usize,
    valid: Result<()>,
    res: Result<CreateBegin>,
)
    requires
        call_ensures(CreateWorkflow::validate, (&body, max_yaml), valid),
        call_ensures(create, (publisher, body, max_yaml), res),
    ensures
        res is Ok <==> valid is Ok,
        valid matches Err(e) ==> (res matches Err(x) && x@ == e@),
{
}

/// A new workflow is written as it was sent, under its publisher, and its
/// document and changelog become version 1 of it. That is what is answered.
pub proof fn a_new_workflow_is_written_as_it_was_sent(
    publisher: Publisher,
    body: CreateWorkflow,
    max_yaml: usize,
    begin: CreateBegin,
    entry: CreateEntry,
    st: Statement,
    id: Uuid,
    first: CreateFirstVersion,
    next: Statement,
    count: u64,
    commit: CreateCommit,
    done: Published,
)
    requires
        call_ensures(create, (publisher, body, max_yaml), Ok(begin)),
        call_ensures(CreateBegin::begun, (begin, Ok(())), Ok(entry)),
        call_ensures(CreateEntry::statement, (&entry,), st),
        call_ensures(CreateEntry::inserted, (entry, Ok(id)), Ok(first)),
        call_ensures(CreateFirstVersion::statement, (&first,), next),
        call_ensures(CreateFirstVersion::inserted, (first, Ok(count)), Ok(commit)),
        call_ensures(CreateCommit::committed, (commit, Ok(())), Ok(done)),
    ensures
        done.slug@ == body.slug@,
        done.version == 1,
        is_statement(
            st,
            "INSERT INTO registry_workflows (slug, title, description, tags, publisher_id)
         VALUES ($1, $2, $3, $4, $5)
         RETURNING id"@,
            seq![
                ParamView::Text(body.slug@),
                ParamView::Text(body.title@),
                ParamView::Text(body.description@),
                ParamView::Texts(body.tags.deep_view()),
                ParamView::Id(publisher.id),
            ],
        ),
        is_statement(
            next,
            "INSERT INTO registry_versions (workflow_id, version, yaml, changelog)
         VALUES ($1, 1, $2, $3)"@,
            seq![
                ParamView::Id(id),
                ParamView::Text(body.yaml@),
                ParamView::MaybeText(body.changelog.deep_view()),
            ],
        ),
{
    lemma_is_statement(
        st,
        "INSERT INTO registry_workflows (slug, title, description, tags, publisher_id)
         VALUES ($1, $2, $3, $4, $5)
         RETURNING id"@,
        seq![
            ParamView::Text(body.slug@),
            ParamView::Text(body.title@),
            ParamView::Text(body.description@),
            ParamView::Texts(body.tags.deep_view()),
            ParamView::Id(publisher.id),
        ],
    );
    lemma_is_statement(
        next,
        "INSERT INTO registry_versions (workflow_id, version, yaml, changelog)
         VALUES ($1, 1, $2, $3)"@,
        seq![
            ParamView::Id(id),
            ParamView::Text(body.yaml@),
            ParamView::MaybeText(body.changelog.deep_view()),
        ],
    );
}

/// A new workflow fails where the database does; a slug that is taken is a
/// conflict.
pub proof fn a_new_workflow_can_fail(
    begin: CreateBegin,
    begun: std::result::Result<(), DbError>,
    to_entry: Result<CreateEntry>,
    entry: CreateEntry,
    id: std::result::Result<Uuid, DbError>,
    to_first: Result<CreateFirstVersion>,
    first: CreateFirstVersion,
    count: std::result::Result<u64, DbError>,
    to_commit: Result<CreateCommit>,
    commit: CreateCommit,
    committed: std::result::Result<(), DbError>,
    res: Result<Published>,
)
    requires
        call_ensures(CreateBegin::begun, (begin, begun), to_entry),
        call_ensures(CreateEntry::inserted, (entry, id), to_first),
        call_ensures(CreateFirstVersion::inserted, (first, count), to_commit),
        call_ensures(CreateCommit::committed, (commit, committed), res),
    ensures
        follows(begun, to_entry),
        follows_race(id, to_first, "that slug is already taken"@),
        follows(count, to_commit),
        follows(committed, res),
{
}

/// A new version goes on exactly if it is valid, and is refused for what it is
/// not valid for.
pub proof fn only_a_valid_version_is_written(
    publisher: Publisher,
    slug: String,
    body: PublishVersion,
    max_yaml: usize,
    valid: Result<()>,
    res: Result<PublishLookup>,
)
    requires
        call_ensures(PublishVersion::validate, (&body, max_yaml), valid),
        call_ensures(publish_version, (publisher, slug, body, max_yaml), res),
    ensures
        res is Ok <==> valid is Ok,
        valid matches Err(e) ==> (res matches Err(x) && x@ == e@),
{
}

/// A new version is written as it was sent, to the publisher's own workflow,
/// under the number the database derives, which is what is answered. The
/// workflow counts as updated.
pub proof fn a_new_version_is_written_as_it_was_sent(
    publisher: Publisher,
    slug: String,
    body: PublishVersion,
    max_yaml: usize,
    lookup: PublishLookup,
    st: Statement,
    id: Uuid,
    begin: PublishBegin,
    insert: PublishInsert,
    next: Statement,
    version: i32,
    touch: PublishTouch,
    last: Statement,
    count: u64,
    commit: PublishCommit,
    done: Published,
)
    requires
        call_ensures(publish_version, (publisher, slug, body, max_yaml), Ok(lookup)),
        call_ensures(PublishLookup::statement, (&lookup,), st),
        call_ensures(PublishLookup::found, (lookup, Ok(Some(id))), Ok(begin)),
        call_ensures(PublishBegin::begun, (begin, Ok(())), Ok(insert)),
        call_ensures(PublishInsert::statement, (&insert,), next),
        call_ensures(PublishInsert::inserted, (insert, Ok(version)), Ok(touch)),
        call_ensures(PublishTouch::statement, (&touch,), last),
        call_ensures(PublishTouch::touched, (touch, Ok(count)), Ok(commit)),
        call_ensures(PublishCommit::committed, (commit, Ok(())), Ok(done)),
    ensures
        done.slug@ == slug@,
        done.version == version,
        is_statement(
            st,
            "SELECT id FROM registry_workflows WHERE slug = $1 AND publisher_id = $2"@,
            seq![ParamView::Text(slug@), ParamView::Id(publisher.id)],
        ),
        is_statement(
            next,
            "INSERT INTO registry_versions (workflow_id, version, yaml, changelog)
         SELECT $1, COALESCE(max(version), 0) + 1, $2, $3
           FROM registry_versions WHERE workflow_id = $1
         RETURNING version"@,
            seq![
                ParamView::Id(id),
                ParamView::Text(body.yaml@),
                ParamView::MaybeText(body.changelog.deep_view()),
            ],
        ),
        is_statement(
            last,
            "UPDATE registry_workflows SET updated_at = now() WHERE id = $1"@,
            seq![ParamView::Id(id)],
        ),
{
    lemma_is_statement(
        st,
        "SELECT id FROM registry_workflows WHERE slug = $1 AND publisher_id = $2"@,
        seq![ParamView::Text(slug@), ParamView::Id(publisher.id)],
    );
    lemma_is_statement(
        next,
        "INSERT INTO registry_versions (workflow_id, version, yaml, changelog)
         SELECT $1, COALESCE(max(version), 0) + 1, $2, $3
           FROM registry_versions WHERE workflow_id = $1
         RETURNING version"@,
        seq![
            ParamView::Id(id),
            ParamView::Text(body.yaml@),
            ParamView::MaybeText(body.changelog.deep_view()),
        ],
    );
    lemma_is_statement(
        last,
        "UPDATE registry_workflows SET updated_at = now() WHERE id = $1"@,
        seq![ParamView::Id(id)],
    );
}

/// A new version fails where its workflow is not the publisher's, or where the
/// database does; a number that another publish took is a conflict.
pub proof fn a_new_version_can_fail(
    lookup: PublishLookup,
    found: std::result::Result<Option<Uuid>, DbError>,
    to_begin: Result<PublishBegin>,
    begin: PublishBegin,
    begun: std::result::Result<(), DbError>,
    to_insert: Result<PublishInsert>,
    insert: PublishInsert,
    version: std::result::Result<i32, DbError>,
    to_touch: Result<PublishTouch>,
    touch: PublishTouch,
    count: std::result::Result<u64, DbError>,
    to_commit: Result<PublishCommit>,
    commit: PublishCommit,
    committed: std::result::Result<(), DbError>,
    res: Result<Published>,
)
    requires
        call_ensures(PublishLookup::found, (lookup, found), to_begin),
        call_ensures(PublishBegin::begun, (begin, begun), to_insert),
        call_ensures(PublishInsert::inserted, (insert, version), to_touch),
        call_ensures(PublishTouch::touched, (touch, count), to_commit),
        call_ensures(PublishCommit::committed, (commit, committed), res),
    ensures
        follows_row(found, to_begin, "workflow"@),
        follows(begun, to_insert),
        follows_race(version, to_touch, "a concurrent publish took that version; retry"@),
        follows(count, to_commit),
        follows(committed, res),
{
}

// --- amending and unlisting -------------------------------------------------

/// An amendment goes on exactly if it is valid, and is refused for what it is
/// not valid for.
pub proof fn only_a_valid_amendment_is_written(
    publisher: Publisher,
    slug: String,
    body: UpdateWorkflow,
    valid: Result<()>,
    res: Result<UpdateLookup>,
)
    requires
        call_ensures(UpdateWorkflow::validate, (&body,), valid),
        call_ensures(update, (publisher, slug, body), res),
    ensures
        res is Ok <==> valid is Ok,
        valid matches Err(e) ==> (res matches Err(x) && x@ == e@),
{
}

/// An amendment is written as it was sent, to the publisher's own workflow, with
/// what it leaves out left out.
pub proof fn an_amendment_is_written_as_it_was_sent(
    publisher: Publisher,
    slug: String,
    body: UpdateWorkflow,
    lookup: UpdateLookup,
    st: Statement,
    id: Uuid,
    write: UpdateWrite,
    next: Statement,
    count: u64,
    done: Status,
)
    requires
        call_ensures(update, (publisher, slug, body), Ok(lookup)),
        call_ensures(UpdateLookup::statement, (&lookup,), st),
        call_ensures(UpdateLookup::found, (lookup, Ok(Some(id))), Ok(write)),
        call_ensures(UpdateWrite::statement, (&write,), next),
        call_ensures(UpdateWrite::written, (write, Ok(count)), Ok(done)),
    ensures
        done.status@ == "updated"@,
        is_statement(
            st,
            "SELECT id FROM registry_workflows WHERE slug = $1 AND publisher_id = $2"@,
            seq![ParamView::Text(slug@), ParamView::Id(publisher.id)],
        ),
        is_statement(
            next,
            "UPDATE registry_workflows
            SET title = COALESCE($2, title),
                description = COALESCE($3, description),
                tags = COALESCE($4, tags),
                updated_at = now()
          WHERE id = $1"@,
            seq![
                ParamView::Id(id),
                ParamView::MaybeText(body.title.deep_view()),
                ParamView::MaybeText(body.description.deep_view()),
                ParamView::MaybeTexts(body.tags.deep_view()),
            ],
        ),
{
    lemma_is_statement(
        st,
        "SELECT id FROM registry_workflows WHERE slug = $1 AND publisher_id = $2"@,
        seq![ParamView::Text(slug@), ParamView::Id(publisher.id)],
    );
    lemma_is_statement(
        next,
        "UPDATE registry_workflows
            SET title = COALESCE($2, title),
                description = COALESCE($3, description),
                tags = COALESCE($4, tags),
                updated_at = now()
          WHERE id = $1"@,
        seq![
            ParamView::Id(id),
            ParamView::MaybeText(body.title.deep_view()),
            ParamView::MaybeText(body.description.deep_view()),
            ParamView::MaybeTexts(body.tags.deep_view()),
        ],
    );
}

/// An amendment and an unlisting fail where the workflow is not the
/// publisher's, or where the database does.
pub proof fn an_amendment_and_an_unlisting_can_fail(
    lookup: UpdateLookup,
    found: std::result::Result<Option<Uuid>, DbError>,
    to_write: Result<UpdateWrite>,
    write: UpdateWrite,
    written: std::result::Result<u64, DbError>,
    res: Result<Status>,
    unlisting: UnlistLookup,
    to_unlist: Result<UnlistWrite>,
    unlist_write: UnlistWrite,
    answer: Result<Status>,
)
    requires
        call_ensures(UpdateLookup::found, (lookup, found), to_write),
        call_ensures(UpdateWrite::written, (write, written), res),
        call_ensures(UnlistLookup::found, (unlisting, found), to_unlist),
        call_ensures(UnlistWrite::written, (unlist_write, written), answer),
    ensures
        follows_row(found, to_write, "workflow"@),
        follows(written, res),
        follows_row(found, to_unlist, "workflow"@),
        follows(written, answer),
{
}

/// An unlisting marks the publisher's own workflow of the slug, and no other.
pub proof fn an_unlisting_marks_its_workflow(
    publisher: Publisher,
    slug: String,
    lookup: UnlistLookup,
    st: Statement,
    id: Uuid,
    write: UnlistWrite,
    next: Statement,
    count: u64,
    done: Status,
)
    requires
        call_ensures(unlist, (publisher, slug), lookup),
        call_ensures(UnlistLookup::statement, (&lookup,), st),
        call_ensures(UnlistLookup::found, (lookup, Ok(Some(id))), Ok(write)),
        call_ensures(UnlistWrite::statement, (&write,), next),
        call_ensures(UnlistWrite::written, (write, Ok(count)), Ok(done)),
    ensures
        done.status@ == "unlisted"@,
        is_statement(
            st,
            "SELECT id FROM registry_workflows WHERE slug = $1 AND publisher_id = $2"@,
            seq![ParamView::Text(slug@), ParamView::Id(publisher.id)],
        ),
        is_statement(
            next,
            "UPDATE registry_workflows SET unlisted_at = now() WHERE id = $1"@,
            seq![ParamView::Id(id)],
        ),
{
    lemma_is_statement(
        st,
        "SELECT id FROM registry_workflows WHERE slug = $1 AND publisher_id = $2"@,
        seq![ParamView::Text(slug@), ParamView::Id(publisher.id)],
    );
    lemma_is_statement(
        next,
        "UPDATE registry_workflows SET unlisted_at = now() WHERE id = $1"@,
        seq![ParamView::Id(id)],
    );
}

} // verus!
