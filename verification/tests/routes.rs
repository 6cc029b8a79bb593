use axum::http::HeaderMap;
use harness_registry::auth::{hash_token, Admin, Publisher, SELECT_TOKEN};
use harness_registry::db::{DbError, Statement};
use harness_registry::error::Error;
use harness_registry::models::{
    CreateWorkflow, Me, PublishVersion, RecordInstall, Timestamp, UpdateWorkflow, VersionSummary,
    WorkflowSummary,
};
use harness_registry::ratelimit::RateLimiter;
use harness_registry::routes::admin::{
    issue_token, set_blocked, set_official, IssueToken, SetFlag, INSERT_TOKEN, SET_BLOCKED,
    SET_OFFICIAL, UPSERT_PUBLISHER,
};
use harness_registry::routes::health::{live, probe, ready};
use harness_registry::routes::installs::{
    check_client, forget, record, unless_poisoned, Admission, DELETE_INSTALL,
    SELECT_KNOWN_VERSION, UPSERT_INSTALL,
};
use harness_registry::routes::me::{self, UpdateMe, RENAME_ME, SELECT_ME};
use harness_registry::routes::workflows::{
    create, detail, detailed, list, listed, publish_version, unlist, update, version_document,
    versions, ListParams, Sort, VersionRow, INSERT_FIRST_VERSION, INSERT_NEXT_VERSION,
    INSERT_WORKFLOW, LIST_FILTER, LIST_PAGE, ORDER_INSTALLS, ORDER_RECENT,
    SELECT_OWNED_WORKFLOW_ID, SELECT_VERSION, SELECT_VERSIONS, SELECT_WORKFLOW_ID, SUMMARY_SELECT,
    TOUCH_WORKFLOW, UNLIST_WORKFLOW, UPDATE_WORKFLOW,
};
use uuid::Uuid;

const MAX_YAML: usize = 100;

const ID_1: &str = "Id(00000000-0000-0000-0000-000000000001)";
const ID_2: &str = "Id(00000000-0000-0000-0000-000000000002)";
const ID_3: &str = "Id(00000000-0000-0000-0000-000000000003)";

fn id(n: u128) -> Uuid {
    Uuid::from_u128(n)
}

fn publisher() -> Publisher {
    Publisher { id: id(1), github_login: "octocat".to_owned() }
}

fn operator() -> Admin {
    Admin::presenting(Some("secret"), Some("secret")).unwrap()
}

fn broken<T>() -> Result<T, DbError> {
    Err(DbError { code: None, message: "gone".to_owned() })
}

fn taken<T>() -> Result<T, DbError> {
    Err(DbError { code: Some("23505".to_owned()), message: "duplicate key".to_owned() })
}

fn is_database<T>(res: Result<T, Error>) -> bool {
    matches!(res, Err(Error::Database(e)) if e.message == "gone")
}

fn is_missing<T>(res: Result<T, Error>, what: &str) -> bool {
    matches!(res, Err(Error::NotFound(w)) if w == what)
}

fn is_conflict<T>(res: Result<T, Error>, message: &str) -> bool {
    matches!(res, Err(Error::Conflict(m)) if m == message)
}

fn is_bad<T>(res: Result<T, Error>, message: &str) -> bool {
    matches!(res, Err(Error::BadRequest(m)) if m == message)
}

/// A statement, as its text and its values.
fn shown(statement: &Statement) -> (&str, Vec<String>) {
    (&statement.sql, statement.params.iter().map(|p| format!("{p:?}")).collect())
}

fn expect(statement: &Statement, sql: &str, params: &[&str]) {
    let (text, values) = shown(statement);
    assert_eq!(text, sql);
    assert_eq!(values, params);
}

fn new_workflow() -> CreateWorkflow {
    CreateWorkflow {
        slug: "deploy".to_owned(),
        title: "Deploy".to_owned(),
        description: "Ships it".to_owned(),
        tags: vec!["ci".to_owned(), "ops".to_owned()],
        yaml: "steps: []".to_owned(),
        changelog: None,
    }
}

fn new_version() -> PublishVersion {
    PublishVersion { yaml: "steps: [1]".to_owned(), changelog: Some("More".to_owned()) }
}

fn summary() -> WorkflowSummary {
    WorkflowSummary {
        slug: "deploy".to_owned(),
        title: "Deploy".to_owned(),
        description: "Ships it".to_owned(),
        tags: vec![],
        official: false,
        publisher: "octocat".to_owned(),
        latest_version: None,
        installs: 4,
        updated_at: Timestamp { secs: 5, nanos: 6 },
    }
}

// --- health -----------------------------------------------------------------

#[test]
fn liveness_asks_nothing_and_readiness_asks_the_database() {
    assert_eq!(live().status, "ok");
    expect(&probe(), "SELECT 1", &[]);
    let up = ready(Ok(1));
    assert_eq!((up.code, up.body.status), (200, "ready"));
    let down = ready(broken());
    assert_eq!((down.code, down.body.status), (503, "database unavailable"));
}

// --- listing ----------------------------------------------------------------

#[test]
fn a_listing_binds_every_filter() {
    let statement = list(ListParams {
        tag: Some("ci".to_owned()),
        q: Some("'; DROP TABLE x".to_owned()),
        official: Some(true),
        limit: Some(20),
        offset: Some(40),
        sort: Sort::Recent,
    });
    expect(
        &statement,
        &format!("{SUMMARY_SELECT}{LIST_FILTER}{ORDER_RECENT}{LIST_PAGE}"),
        &[
            "MaybeText(Some(\"ci\"))",
            "MaybeText(Some(\"'; DROP TABLE x\"))",
            "MaybeBool(Some(true))",
            "BigInt(20)",
            "BigInt(40)",
        ],
    );
}

#[test]
fn a_page_is_clamped_rather_than_refused() {
    let page = |limit, offset| {
        let statement = list(ListParams {
            tag: None,
            q: None,
            official: None,
            limit,
            offset,
            sort: Sort::default(),
        });
        let (sql, mut values) = shown(&statement);
        assert_eq!(sql, format!("{SUMMARY_SELECT}{LIST_FILTER}{ORDER_INSTALLS}{LIST_PAGE}"));
        values.split_off(3).join(" ")
    };
    assert_eq!(page(None, None), "BigInt(50) BigInt(0)");
    assert_eq!(page(Some(0), Some(-1)), "BigInt(1) BigInt(0)");
    assert_eq!(page(Some(-5), Some(i64::MIN)), "BigInt(1) BigInt(0)");
    assert_eq!(page(Some(1), Some(1)), "BigInt(1) BigInt(1)");
    assert_eq!(page(Some(200), Some(i64::MAX)), "BigInt(200) BigInt(9223372036854775807)");
    assert_eq!(page(Some(201), None), "BigInt(200) BigInt(0)");
    assert_eq!(page(Some(i64::MAX), None), "BigInt(200) BigInt(0)");
}

#[test]
fn a_listing_answers_its_rows() {
    let rows = listed(Ok(vec![summary()])).unwrap();
    assert_eq!(rows.len(), 1);
    assert_eq!(rows[0].installs, 4);
    assert!(is_database(listed(broken())));
}

#[test]
fn entries_are_shown_under_the_display_name_or_else_the_login() {
    let shown_as = "COALESCE(p.display_name, p.github_login) AS publisher";
    assert!(SUMMARY_SELECT.contains(shown_as));
    assert!(detail("x").sql.contains(shown_as));
    assert!(!SUMMARY_SELECT.contains("p.github_login AS publisher"));
}

#[test]
fn a_withdrawn_version_and_an_old_install_do_not_count() {
    for sql in [SUMMARY_SELECT.to_owned(), detail("x").sql] {
        assert!(sql.contains("v.withdrawn_at IS NULL) AS latest_version"));
        assert!(sql.contains("i.last_seen_at > now() - interval '90 days') AS installs"));
    }
}

#[test]
fn each_statement_writes_what_it_is_for() {
    assert_eq!(
        SELECT_OWNED_WORKFLOW_ID,
        format!("{SELECT_WORKFLOW_ID} AND publisher_id = $2")
    );
    assert!(INSERT_NEXT_VERSION.contains("SELECT $1, COALESCE(max(version), 0) + 1, $2, $3"));
    assert!(UPDATE_WORKFLOW.contains("title = COALESCE($2, title)"));
    assert!(RENAME_ME.starts_with("UPDATE registry_publishers SET display_name = $2\n"));
    assert!(SELECT_TOKEN.ends_with(" WHERE t.token_hash = $1 AND t.revoked_at IS NULL"));
}

#[test]
fn the_library_hides_what_is_unlisted_and_lookups_do_not() {
    assert!(LIST_FILTER.contains("w.unlisted_at IS NULL"));
    assert!(detail("x").sql.contains("w.unlisted_at IS NULL"));
    assert!(!SELECT_WORKFLOW_ID.contains("unlisted_at"));
    assert!(!SELECT_VERSIONS.contains("unlisted_at"));
    assert_eq!(UNLIST_WORKFLOW, "UPDATE registry_workflows SET unlisted_at = now() WHERE id = $1");
    assert!(!SELECT_VERSION.contains("withdrawn_at IS NULL"));
    // The badge is set by the operator alone.
    assert!(!INSERT_WORKFLOW.contains("official"));
    assert!(!UPDATE_WORKFLOW.contains("official"));
}

#[test]
fn one_workflow_is_found_or_not() {
    expect(
        &detail("deploy"),
        &format!("{SUMMARY_SELECT} WHERE w.slug = $1 AND w.unlisted_at IS NULL"),
        &["Text(\"deploy\")"],
    );
    assert_eq!(detailed(Ok(Some(summary()))).unwrap().slug, "deploy");
    assert!(is_missing(detailed(Ok(None)), "workflow"));
    assert!(is_database(detailed(broken())));
}

// --- versions ---------------------------------------------------------------

#[test]
fn a_version_history_is_read_in_two_steps() {
    let lookup = versions("deploy".to_owned());
    expect(&lookup.statement(), SELECT_WORKFLOW_ID, &["Text(\"deploy\")"]);
    let query = lookup.found(Ok(Some(id(2)))).unwrap();
    expect(&query.statement(), SELECT_VERSIONS, &[ID_2]);
    let row = VersionSummary {
        version: 3,
        changelog: None,
        published_at: Timestamp { secs: 1, nanos: 0 },
        withdrawn: true,
    };
    assert_eq!(query.rows(Ok(vec![row])).unwrap()[0].version, 3);

    assert!(is_missing(versions("x".to_owned()).found(Ok(None)), "workflow"));
    assert!(is_database(versions("x".to_owned()).found(broken())));
    let query = versions("x".to_owned()).found(Ok(Some(id(2)))).unwrap();
    assert!(is_database(query.rows(broken())));
}

#[test]
fn a_withdrawn_version_is_served_with_the_flag_set() {
    let lookup = version_document("deploy".to_owned(), 3);
    expect(&lookup.statement(), SELECT_WORKFLOW_ID, &["Text(\"deploy\")"]);
    let query = lookup.found(Ok(Some(id(2)))).unwrap();
    expect(&query.statement(), SELECT_VERSION, &[ID_2, "Int(3)"]);
    let document = query
        .row(Ok(Some(VersionRow {
            version: 3,
            yaml: "steps: []".to_owned(),
            changelog: Some("Fix".to_owned()),
            published_at: Timestamp { secs: 9, nanos: 1 },
            withdrawn: true,
        })))
        .unwrap();
    assert_eq!(document.slug, "deploy");
    assert_eq!(document.version, 3);
    assert_eq!(document.yaml, "steps: []");
    assert_eq!(document.changelog.as_deref(), Some("Fix"));
    assert_eq!(document.published_at, Timestamp { secs: 9, nanos: 1 });
    assert!(document.withdrawn);
}

#[test]
fn a_version_that_is_not_there_is_not_found() {
    let query = version_document("x".to_owned(), 3).found(Ok(Some(id(2)))).unwrap();
    assert!(is_missing(query.row(Ok(None)), "version"));
    assert!(is_missing(version_document("x".to_owned(), 3).found(Ok(None)), "workflow"));
    let query = version_document("x".to_owned(), 3).found(Ok(Some(id(2)))).unwrap();
    assert!(is_database(query.row(broken())));
}

// --- publishing -------------------------------------------------------------

#[test]
fn a_new_workflow_starts_at_version_one() {
    let begin = create(publisher(), new_workflow(), MAX_YAML).unwrap();
    let entry = begin.begun(Ok(())).unwrap();
    expect(
        &entry.statement(),
        INSERT_WORKFLOW,
        &[
            "Text(\"deploy\")",
            "Text(\"Deploy\")",
            "Text(\"Ships it\")",
            "Texts([\"ci\", \"ops\"])",
            ID_1,
        ],
    );
    let first = entry.inserted(Ok(id(2))).unwrap();
    expect(
        &first.statement(),
        INSERT_FIRST_VERSION,
        &[ID_2, "Text(\"steps: []\")", "MaybeText(None)"],
    );
    let done = first.inserted(Ok(1)).unwrap().committed(Ok(())).unwrap();
    assert_eq!((done.slug.as_str(), done.version), ("deploy", 1));
}

#[test]
fn a_new_workflow_can_fail_at_every_step() {
    let begin = || create(publisher(), new_workflow(), MAX_YAML).unwrap();
    let entry = || begin().begun(Ok(())).unwrap();
    let first = || entry().inserted(Ok(id(2))).unwrap();

    assert!(matches!(create(publisher(), new_workflow(), 3), Err(Error::TooLarge)));
    let unnamed = CreateWorkflow { title: " ".to_owned(), ..new_workflow() };
    assert!(is_bad(create(publisher(), unnamed, MAX_YAML), "title is required"));
    assert!(is_database(begin().begun(broken())));
    assert!(is_conflict(entry().inserted(taken()), "that slug is already taken"));
    assert!(is_database(entry().inserted(broken())));
    // A clash on the first version is no race a caller could have lost.
    assert!(matches!(first().inserted(taken()), Err(Error::Database(_))));
    assert!(is_database(first().inserted(broken())));
    assert!(is_database(first().inserted(Ok(1)).unwrap().committed(broken())));
}

#[test]
fn the_next_version_is_numbered_by_the_database() {
    let lookup =
        publish_version(publisher(), "deploy".to_owned(), new_version(), MAX_YAML).unwrap();
    expect(&lookup.statement(), SELECT_OWNED_WORKFLOW_ID, &["Text(\"deploy\")", ID_1]);
    let insert = lookup.found(Ok(Some(id(2)))).unwrap().begun(Ok(())).unwrap();
    expect(
        &insert.statement(),
        INSERT_NEXT_VERSION,
        &[ID_2, "Text(\"steps: [1]\")", "MaybeText(Some(\"More\"))"],
    );
    let touch = insert.inserted(Ok(8)).unwrap();
    expect(&touch.statement(), TOUCH_WORKFLOW, &[ID_2]);
    let done = touch.touched(Ok(1)).unwrap().committed(Ok(())).unwrap();
    assert_eq!((done.slug.as_str(), done.version), ("deploy", 8));
}

#[test]
fn the_next_version_can_fail_at_every_step() {
    let lookup =
        || publish_version(publisher(), "deploy".to_owned(), new_version(), MAX_YAML).unwrap();
    let begin = || lookup().found(Ok(Some(id(2)))).unwrap();
    let insert = || begin().begun(Ok(())).unwrap();
    let touch = || insert().inserted(Ok(8)).unwrap();

    let refused = publish_version(publisher(), "deploy".to_owned(), new_version(), 3);
    assert!(matches!(refused, Err(Error::TooLarge)));
    let empty = PublishVersion { yaml: "\n".to_owned(), changelog: None };
    let refused = publish_version(publisher(), "deploy".to_owned(), empty, MAX_YAML);
    assert!(is_bad(refused, "yaml is required"));
    assert!(is_missing(lookup().found(Ok(None)), "workflow"));
    assert!(is_database(lookup().found(broken())));
    assert!(is_database(begin().begun(broken())));
    assert!(is_conflict(
        insert().inserted(taken()),
        "a concurrent publish took that version; retry"
    ));
    assert!(is_database(insert().inserted(broken())));
    assert!(is_database(touch().touched(broken())));
    // That nothing was touched is not an error here: the version is in.
    assert!(touch().touched(Ok(0)).is_ok());
    assert!(is_database(touch().touched(Ok(1)).unwrap().committed(broken())));
}

// --- amending and unlisting -------------------------------------------------

#[test]
fn an_update_leaves_out_what_it_does_not_change() {
    let body = UpdateWorkflow {
        title: Some("New".to_owned()),
        description: None,
        tags: Some(vec!["ci".to_owned()]),
    };
    let lookup = update(publisher(), "deploy".to_owned(), body).unwrap();
    expect(&lookup.statement(), SELECT_OWNED_WORKFLOW_ID, &["Text(\"deploy\")", ID_1]);
    let write = lookup.found(Ok(Some(id(2)))).unwrap();
    expect(
        &write.statement(),
        UPDATE_WORKFLOW,
        &[
            ID_2,
            "MaybeText(Some(\"New\"))",
            "MaybeText(None)",
            "MaybeTexts(Some([\"ci\"]))",
        ],
    );
    assert_eq!(write.written(Ok(1)).unwrap().status, "updated");
}

#[test]
fn an_update_can_fail_at_every_step() {
    let body =
        || UpdateWorkflow { title: None, description: Some("d".to_owned()), tags: None };
    let lookup = || update(publisher(), "deploy".to_owned(), body()).unwrap();

    let nothing = UpdateWorkflow { title: None, description: None, tags: None };
    assert!(is_bad(update(publisher(), "x".to_owned(), nothing), "nothing to update"));
    assert!(is_missing(lookup().found(Ok(None)), "workflow"));
    assert!(is_database(lookup().found(broken())));
    let write = lookup().found(Ok(Some(id(2)))).unwrap();
    expect(
        &write.statement(),
        UPDATE_WORKFLOW,
        &[ID_2, "MaybeText(None)", "MaybeText(Some(\"d\"))", "MaybeTexts(None)"],
    );
    assert!(is_database(write.written(broken())));
}

#[test]
fn a_workflow_is_unlisted_by_its_publisher() {
    let lookup = unlist(publisher(), "deploy".to_owned());
    expect(&lookup.statement(), SELECT_OWNED_WORKFLOW_ID, &["Text(\"deploy\")", ID_1]);
    let write = lookup.found(Ok(Some(id(2)))).unwrap();
    expect(&write.statement(), UNLIST_WORKFLOW, &[ID_2]);
    assert_eq!(write.written(Ok(1)).unwrap().status, "unlisted");

    let lookup = || unlist(publisher(), "deploy".to_owned());
    assert!(is_missing(lookup().found(Ok(None)), "workflow"));
    assert!(is_database(lookup().found(broken())));
    assert!(is_database(lookup().found(Ok(Some(id(2)))).unwrap().written(broken())));
}

// --- installs ---------------------------------------------------------------

/// What a limiter of so many hits per window says of a client's first.
fn first_hit(limit: u32) -> Admission {
    let mut limiter = RateLimiter::new(limit, u128::MAX);
    check_client(&mut limiter, &HeaderMap::new(), Some("10.0.0.1"))
}

/// Whether a client is let through to a write.
fn passes(admission: Admission) -> bool {
    match record(admission, "deploy".to_owned(), install()) {
        Ok(_) => true,
        Err(Error::TooManyRequests) => false,
        Err(e) => panic!("{e:?}"),
    }
}

fn install() -> RecordInstall {
    RecordInstall { installation_id: id(3), version: 5 }
}

#[test]
fn an_install_of_a_published_version_is_recorded() {
    let lookup = record(first_hit(1), "deploy".to_owned(), install()).unwrap();
    expect(&lookup.statement(), SELECT_WORKFLOW_ID, &["Text(\"deploy\")"]);
    let version = lookup.found(Ok(Some(id(2)))).unwrap();
    expect(&version.statement(), SELECT_KNOWN_VERSION, &[ID_2, "Int(5)"]);
    let write = version.known(Ok(Some(5))).unwrap();
    expect(&write.statement(), UPSERT_INSTALL, &[ID_2, ID_3, "Int(5)"]);
    assert_eq!(write.written(Ok(1)).unwrap().status, "recorded");
}

#[test]
fn an_install_can_be_refused_at_every_step() {
    let lookup = || record(first_hit(1), "deploy".to_owned(), install()).unwrap();
    let version = || lookup().found(Ok(Some(id(2)))).unwrap();

    let refused = record(first_hit(0), "deploy".to_owned(), install());
    assert!(matches!(refused, Err(Error::TooManyRequests)));
    assert!(is_missing(lookup().found(Ok(None)), "workflow"));
    assert!(is_database(lookup().found(broken())));
    assert!(is_missing(version().known(Ok(None)), "version"));
    assert!(is_database(version().known(broken())));
    assert!(is_database(version().known(Ok(Some(5))).unwrap().written(broken())));
}

#[test]
fn a_repeated_uninstall_is_not_a_success() {
    let lookup = forget(first_hit(1), "deploy".to_owned(), id(3)).unwrap();
    expect(&lookup.statement(), SELECT_WORKFLOW_ID, &["Text(\"deploy\")"]);
    let write = lookup.found(Ok(Some(id(2)))).unwrap();
    expect(&write.statement(), DELETE_INSTALL, &[ID_2, ID_3]);
    assert_eq!(write.deleted(Ok(1)).unwrap().status, "forgotten");

    let lookup = || forget(first_hit(1), "deploy".to_owned(), id(3)).unwrap();
    let write = || lookup().found(Ok(Some(id(2)))).unwrap();
    let refused = forget(first_hit(0), "deploy".to_owned(), id(3));
    assert!(matches!(refused, Err(Error::TooManyRequests)));
    assert!(is_missing(lookup().found(Ok(None)), "workflow"));
    assert!(is_missing(write().deleted(Ok(0)), "install"));
    assert!(is_database(write().deleted(broken())));
}

#[test]
fn the_limit_is_counted_per_client() {
    let mut limiter = RateLimiter::new(1, u128::MAX);
    let mut headers = HeaderMap::new();
    headers.insert("cf-connecting-ip", "9.9.9.9".parse().unwrap());
    assert!(passes(check_client(&mut limiter, &headers, Some("10.0.0.1"))));
    assert!(!passes(check_client(&mut limiter, &headers, Some("10.0.0.2"))));
    assert!(passes(check_client(&mut limiter, &HeaderMap::new(), Some("10.0.0.1"))));
    assert!(!passes(check_client(&mut limiter, &HeaderMap::new(), Some("10.0.0.1"))));
}

#[test]
fn a_limiter_that_cannot_be_reached_fails_open() {
    assert!(passes(unless_poisoned(None)));
    assert!(passes(unless_poisoned(Some(first_hit(1)))));
    assert!(!passes(unless_poisoned(Some(first_hit(0)))));
}

#[test]
fn a_repeated_record_meets_the_row_of_the_first() {
    let row = |version: i32| {
        let body = RecordInstall { installation_id: id(3), version };
        let lookup = record(first_hit(1), "deploy".to_owned(), body).unwrap();
        let write = lookup.found(Ok(Some(id(2)))).unwrap().known(Ok(Some(version))).unwrap();
        shown(&write.statement()).1
    };
    assert_eq!(row(5)[..2], row(6)[..2]);
    assert_eq!(row(6)[2], "Int(6)");
    assert!(UPSERT_INSTALL.contains("ON CONFLICT (workflow_id, installation_id)"));
}

// --- the publisher's own row ------------------------------------------------

fn own_row() -> Me {
    Me { github_login: "octocat".to_owned(), display_name: None, avatar_url: None }
}

#[test]
fn a_token_reads_its_own_publisher() {
    expect(&me::get(&publisher()), SELECT_ME, &[ID_1]);
    assert_eq!(me::got(Ok(own_row())).unwrap().github_login, "octocat");
    assert!(is_database(me::got(broken())));
}

#[test]
fn a_display_name_is_trimmed_and_a_blank_one_cleared() {
    let renamed = |sent: Option<&str>| {
        let body = UpdateMe { display_name: sent.map(str::to_owned) };
        let statement = me::update(&publisher(), body).unwrap();
        let (sql, values) = shown(&statement);
        assert_eq!(sql, RENAME_ME);
        assert_eq!(values[0], ID_1);
        assert_eq!(values.len(), 2);
        values[1].clone()
    };
    assert_eq!(renamed(Some("  Ada Lovelace ")), "MaybeText(Some(\"Ada Lovelace\"))");
    assert_eq!(renamed(Some(" \t ")), "MaybeText(None)");
    assert_eq!(renamed(Some("")), "MaybeText(None)");
    assert_eq!(renamed(None), "MaybeText(None)");
    assert!(is_database(me::updated(broken())));
    assert_eq!(me::updated(Ok(own_row())).unwrap().github_login, "octocat");
}

#[test]
fn a_display_name_is_bounded_in_characters_not_bytes() {
    let update = |name: String| me::update(&publisher(), UpdateMe { display_name: Some(name) });
    assert!(update("é".repeat(60)).is_ok());
    assert!(update(format!("  {}  ", "x".repeat(60))).is_ok());
    assert!(is_bad(update("é".repeat(61)), "display name is too long"));
}

// --- the operator -----------------------------------------------------------

fn token_request(name: &str) -> IssueToken {
    IssueToken {
        github_id: 42,
        github_login: "octocat".to_owned(),
        display_name: None,
        avatar_url: Some("https://a.example/o.png".to_owned()),
        name: name.to_owned(),
    }
}

#[test]
fn a_token_is_handed_out_in_clear_and_stored_as_a_digest() {
    let begin = issue_token(operator(), token_request("laptop")).unwrap();
    let upsert = begin.begun(Ok(())).unwrap();
    expect(
        &upsert.statement(),
        UPSERT_PUBLISHER,
        &[
            "BigInt(42)",
            "Text(\"octocat\")",
            "MaybeText(None)",
            "MaybeText(Some(\"https://a.example/o.png\"))",
        ],
    );
    let write = upsert.upserted_with(Ok(id(1)), "hrp_00".to_owned()).unwrap();
    let digest = format!("Text({:?})", hash_token("hrp_00"));
    expect(&write.statement(), INSERT_TOKEN, &[ID_1, &digest, "Text(\"laptop\")"]);
    let issued = write.inserted(Ok(1)).unwrap().committed(Ok(())).unwrap();
    assert_eq!(issued.publisher_id, id(1));
    assert_eq!(issued.github_login, "octocat");
    assert_eq!(issued.name, "laptop");
    assert_eq!(issued.token, "hrp_00");
}

#[test]
fn a_token_that_was_issued_is_found_by_the_one_who_presents_it() {
    let begin = issue_token(operator(), token_request("laptop")).unwrap();
    let write = begin.begun(Ok(())).unwrap().upserted(Ok(id(1))).unwrap();
    let stored = shown(&write.statement()).1[1].clone();
    let token = write.inserted(Ok(1)).unwrap().committed(Ok(())).unwrap().token;
    assert!(token.starts_with("hrp_"));

    let mut headers = HeaderMap::new();
    headers.insert("authorization", format!("Bearer {token}").parse().unwrap());
    let lookup = Publisher::from_request_parts(&headers).unwrap();
    assert_eq!(shown(&lookup.statement()).1, [stored]);
}

#[test]
fn issuing_a_token_can_fail_at_every_step() {
    let begin = || issue_token(operator(), token_request("laptop")).unwrap();
    let upsert = || begin().begun(Ok(())).unwrap();
    let write = || upsert().upserted(Ok(id(1))).unwrap();

    assert!(is_bad(issue_token(operator(), token_request(" ")), "name is required"));
    assert!(is_database(begin().begun(broken())));
    assert!(is_database(upsert().upserted(broken())));
    assert!(is_conflict(write().inserted(taken()), "token collision; retry"));
    assert!(is_database(write().inserted(broken())));
    assert!(is_database(write().inserted(Ok(1)).unwrap().committed(broken())));
}

#[test]
fn the_badge_is_set_on_a_workflow_that_exists() {
    let write = set_official(operator(), "deploy".to_owned(), SetFlag { value: true });
    expect(&write.statement(), SET_OFFICIAL, &["Text(\"deploy\")", "Bool(true)"]);
    let done = write.written(Ok(1)).unwrap();
    assert_eq!((done.slug.as_str(), done.official), ("deploy", true));

    let write = || set_official(operator(), "deploy".to_owned(), SetFlag { value: false });
    assert!(!write().written(Ok(1)).unwrap().official);
    assert!(is_missing(write().written(Ok(0)), "workflow"));
    assert!(is_database(write().written(broken())));
}

#[test]
fn a_publisher_that_exists_is_blocked_or_unblocked() {
    let write = set_blocked(operator(), 42, SetFlag { value: true });
    expect(&write.statement(), SET_BLOCKED, &["BigInt(42)", "Bool(true)"]);
    let done = write.written(Ok(1)).unwrap();
    assert_eq!((done.github_id, done.blocked), (42, true));

    let write = || set_blocked(operator(), 42, SetFlag { value: false });
    assert!(!write().written(Ok(1)).unwrap().blocked);
    assert!(is_missing(write().written(Ok(0)), "publisher"));
    assert!(is_database(write().written(broken())));
}
