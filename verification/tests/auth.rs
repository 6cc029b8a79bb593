use axum::http::{HeaderMap, HeaderValue};
use harness_registry::auth::{
    bearer, bearer_from, generate_token, hash_token, token_from, Admin, Publisher, PublisherRow,
    SELECT_TOKEN, TOKEN_BYTES, TOKEN_PREFIX, TOUCH_TOKEN,
};
use harness_registry::db::{DbError, Param, Statement};
use harness_registry::error::Error;
use harness_registry::models::Timestamp;
use uuid::Uuid;

const HELLO_WORLD_DIGEST: &str = "b94d27b9934d3e08a52e52d7da7dabfac484efe37a5380ee9088f7ace2efcde9";

fn credential(value: &str) -> HeaderMap<HeaderValue> {
    let mut headers = HeaderMap::new();
    headers.insert("authorization", value.parse().unwrap());
    headers
}

fn only_text(statement: &Statement) -> &str {
    match statement.params.as_slice() {
        [Param::Text(text)] => text,
        other => panic!("{other:?}"),
    }
}

fn row(blocked_at: Option<Timestamp>) -> PublisherRow {
    PublisherRow { id: Uuid::from_u128(7), github_login: "octocat".to_owned(), blocked_at }
}

#[test]
fn tokens_are_prefixed_and_full_entropy() {
    let token = generate_token();
    assert!(token.starts_with(TOKEN_PREFIX));
    // Hex, so two characters per byte.
    assert_eq!(token.len(), TOKEN_PREFIX.len() + TOKEN_BYTES * 2);
}

#[test]
fn tokens_do_not_repeat() {
    let a = generate_token();
    let b = generate_token();
    assert_ne!(a, b);
}

#[test]
fn hashing_is_stable_and_not_the_token() {
    let token = generate_token();
    assert_eq!(hash_token(&token), hash_token(&token));
    assert_ne!(hash_token(&token), token);
    // SHA-256 as hex.
    assert_eq!(hash_token(&token).len(), 64);
}

#[test]
fn a_different_token_hashes_differently() {
    assert_ne!(hash_token("hrp_a"), hash_token("hrp_b"));
}

#[test]
fn a_known_text_has_its_known_digest() {
    assert_eq!(hash_token("hello world"), HELLO_WORLD_DIGEST);
    assert_eq!(
        hash_token("abc"),
        "ba7816bf8f01cfea414140de5dae2223b00361a396177a9cb410ff61f20015ad"
    );
    assert_eq!(
        hash_token(""),
        "e3b0c44298fc1c149afbf4c8996fb92427ae41e4649b934ca495991b7852b855"
    );
}

#[test]
fn a_token_spells_its_bytes_in_hexadecimal() {
    let mut bytes = [0u8; 32];
    bytes[0] = 0xfe;
    bytes[1] = 0x09;
    bytes[31] = 0xa0;
    let token = token_from(&bytes);
    assert!(token.starts_with("hrp_fe0900"));
    assert!(token.ends_with("00a0"));
    assert_eq!(token.len(), 68);
    bytes[31] = 0xa1;
    assert_ne!(token_from(&bytes), token);
}

#[test]
fn a_credential_is_a_bearer_token() {
    assert_eq!(bearer_from(Some("Bearer abc")), Some("abc"));
    assert_eq!(bearer_from(Some("Bearer   abc \t")), Some("abc"));
    assert_eq!(bearer_from(Some("Bearer ")), None);
    assert_eq!(bearer_from(Some("Bearer    ")), None);
    assert_eq!(bearer_from(Some("Bearer")), None);
    assert_eq!(bearer_from(Some("bearer abc")), None);
    assert_eq!(bearer_from(Some("Basic abc")), None);
    assert_eq!(bearer_from(Some("")), None);
    assert_eq!(bearer_from(None), None);
}

#[test]
fn the_credential_is_read_from_its_header() {
    assert_eq!(bearer(&credential("Bearer abc")), Some("abc"));
    assert_eq!(bearer(&HeaderMap::new()), None);
    let mut headers = HeaderMap::new();
    headers.insert("authorization", HeaderValue::from_bytes(b"Bearer \xff").unwrap());
    assert_eq!(bearer(&headers), None);
}

#[test]
fn a_token_is_looked_up_by_its_digest() {
    let lookup = Publisher::from_request_parts(&credential("Bearer hello world")).unwrap();
    let statement = lookup.statement();
    assert_eq!(statement.sql, SELECT_TOKEN);
    assert_eq!(only_text(&statement), HELLO_WORLD_DIGEST);

    let used = lookup.resolve(Ok(Some(row(None)))).unwrap();
    let statement = used.statement();
    assert_eq!(statement.sql, TOUCH_TOKEN);
    assert_eq!(only_text(&statement), HELLO_WORLD_DIGEST);

    let publisher = used.noted(Ok(1));
    assert_eq!(publisher.id, Uuid::from_u128(7));
    assert_eq!(publisher.github_login, "octocat");
}

#[test]
fn an_issued_token_is_presented_as_it_was_handed_out() {
    let token = generate_token();
    let presented = format!("Bearer {token}");
    assert_eq!(bearer_from(Some(&presented)), Some(token.as_str()));
}

#[test]
fn a_failed_bookkeeping_write_does_not_fail_the_request() {
    let used = Publisher::presenting(Some("t")).unwrap().resolve(Ok(Some(row(None)))).unwrap();
    let failure = DbError { code: None, message: "gone".to_owned() };
    assert_eq!(used.noted(Err(failure)).github_login, "octocat");
}

#[test]
fn no_token_and_an_unknown_token_are_answered_alike() {
    let none = Publisher::from_request_parts(&HeaderMap::new());
    assert!(matches!(none, Err(Error::Unauthorized)));
    let unknown = Publisher::presenting(Some("t")).unwrap().resolve(Ok(None));
    assert!(matches!(unknown, Err(Error::Unauthorized)));
}

#[test]
fn a_blocked_publisher_is_forbidden() {
    let since = Timestamp { secs: 1, nanos: 0 };
    let res = Publisher::presenting(Some("t")).unwrap().resolve(Ok(Some(row(Some(since)))));
    assert!(matches!(res, Err(Error::Forbidden(m)) if m == "publisher is blocked"));
}

#[test]
fn a_failed_lookup_is_a_database_failure() {
    let failure = DbError { code: None, message: "gone".to_owned() };
    let res = Publisher::presenting(Some("t")).unwrap().resolve(Err(failure));
    assert!(matches!(res, Err(Error::Database(e)) if e.message == "gone"));
}

#[test]
fn without_a_configured_token_there_is_no_admin_surface() {
    for headers in [HeaderMap::new(), credential("Bearer anything"), credential("Bearer ")] {
        let res = Admin::from_request_parts(&headers, None);
        assert!(matches!(res, Err(Error::NotFound("route"))));
    }
}

#[test]
fn only_the_configured_token_is_the_operators() {
    let headers = credential("Bearer  secret ");
    assert!(Admin::from_request_parts(&headers, Some("secret")).is_ok());
    let res = Admin::from_request_parts(&headers, Some("Secret"));
    assert!(matches!(res, Err(Error::Unauthorized)));
    let res = Admin::from_request_parts(&HeaderMap::new(), Some("secret"));
    assert!(matches!(res, Err(Error::Unauthorized)));
    assert!(matches!(Admin::presenting(Some("a"), None), Err(Error::Unauthorized)));
}

#[test]
fn a_copy_of_a_publisher_is_the_same_publisher() {
    let publisher = Publisher { id: Uuid::from_u128(9), github_login: "o".to_owned() };
    let copy = publisher.clone();
    assert_eq!(copy.id, publisher.id);
    assert_eq!(copy.github_login, publisher.github_login);
}
