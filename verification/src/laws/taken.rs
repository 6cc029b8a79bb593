//! No request is turned away before it is looked at: every operation takes
//! whatever it is given.
use crate::auth::{bearer_from, hash_token, Admin, Publisher};
use crate::config::{Config, EnvVars};
use crate::cors::cors;
use crate::error::Error;
use crate::models::{
    validate_len, validate_slug, validate_tags, validate_yaml, CreateWorkflow, PublishVersion,
    RecordInstall, UpdateWorkflow,
};
use crate::ratelimit::{client_from, client_key, RateLimiter};
use crate::routes::admin::{issue_token, set_blocked, set_official, IssueToken, SetFlag};
use crate::routes::installs::{check_client, forget, record, Admission};
use crate::routes::me::{self, UpdateMe};
use crate::routes::workflows::{
    create, detail, list, publish_version, unlist, update, version_document, versions, ListParams,
    Sort,
};
use crate::text::{
    comma_list, first_piece, parse_unsigned, reads_as, strip_prefix, to_decimal, trim,
};
use axum::http::{HeaderMap, HeaderValue};
use uuid::Uuid;
use vstd::prelude::*;

verus! {

/// Browsing takes any parameters, any slug and any number.
pub proof fn every_read_is_taken(params: ListParams, raw: Option<&str>, slug: String, s: &str, n: i32)
    ensures
        call_requires(list, (params,)),
        call_requires(Sort::from_param, (raw,)),
        call_requires(detail, (s,)),
        call_requires(versions, (slug,)),
        call_requires(version_document, (slug, n)),
{
}

/// Publishing and amending take any body from any publisher.
pub proof fn every_publication_is_taken(
    publisher: Publisher,
    slug: String,
    workflow: CreateWorkflow,
    version: PublishVersion,
    amendment: UpdateWorkflow,
    name: UpdateMe,
    max_yaml: usize,
)
    ensures
        call_requires(create, (publisher, workflow, max_yaml)),
        call_requires(publish_version, (publisher, slug, version, max_yaml)),
        call_requires(update, (publisher, slug, amendment)),
        call_requires(unlist, (publisher, slug)),
        call_requires(me::get, (&publisher,)),
        call_requires(me::update, (&publisher, name)),
        call_requires(CreateWorkflow::validate, (&workflow, max_yaml)),
        call_requires(PublishVersion::validate, (&version, max_yaml)),
        call_requires(UpdateWorkflow::validate, (&amendment,)),
{
}

/// Every field is looked at, whatever it holds.
pub proof fn every_field_is_taken(field: &'static str, s: &str, tags: &[String], max: usize)
    ensures
        call_requires(validate_slug, (s,)),
        call_requires(validate_len, (field, s, max)),
        call_requires(validate_yaml, (s, max)),
        call_requires(validate_tags, (tags,)),
{
}

/// Installs are counted for any client, and taken from any that is let through.
pub proof fn every_install_is_taken(
    admission: Admission,
    slug: String,
    body: RecordInstall,
    id: Uuid,
    headers: &HeaderMap<HeaderValue>,
    tunnel: Option<&str>,
    chain: Option<&str>,
    socket: Option<&str>,
    limit: u32,
    window: u128,
)
    ensures
        call_requires(record, (admission, slug, body)),
        call_requires(forget, (admission, slug, id)),
        call_requires(client_key, (headers, socket)),
        call_requires(client_from, (tunnel, chain, socket)),
        call_requires(RateLimiter::new, (limit, window)),
        forall|limiter: &mut RateLimiter|
            (*limiter).wf() ==> #[trigger] call_requires(check_client, (limiter, headers, socket)),
        forall|limiter: &mut RateLimiter, key: &str, now: u128|
            (*limiter).wf() ==> #[trigger] call_requires(
                RateLimiter::check_at,
                (limiter, key, now),
            ),
        forall|limiter: &mut RateLimiter, key: &str|
            (*limiter).wf() ==> #[trigger] call_requires(RateLimiter::check, (limiter, key)),
{
}

/// The operator's requests are taken with any body, and anybody may ask to be
/// let in.
pub proof fn every_credential_is_taken(
    admin: Admin,
    token: IssueToken,
    flag: SetFlag,
    slug: String,
    github_id: i64,
    headers: &HeaderMap<HeaderValue>,
    expected: Option<&str>,
    credential: Option<&str>,
    s: &str,
    e: Error,
)
    ensures
        call_requires(issue_token, (admin, token)),
        call_requires(set_official, (admin, slug, flag)),
        call_requires(set_blocked, (admin, github_id, flag)),
        call_requires(Publisher::from_request_parts, (headers,)),
        call_requires(Admin::from_request_parts, (headers, expected)),
        call_requires(bearer_from, (credential,)),
        call_requires(hash_token, (s,)),
        call_requires(Error::into_response, (e,)),
{
}

/// Any setting is read, and a body limit exists for any document limit that
/// leaves room for it.
pub proof fn every_setting_is_taken(vars: EnvVars, config: Config)
    ensures
        call_requires(Config::from_env, (vars,)),
        call_requires(cors, (&config,)),
        config.max_yaml_bytes + 65_536 <= usize::MAX ==> call_requires(
            Config::body_limit,
            (&config,),
        ),
{
}

/// Any text is trimmed, split, compared and read.
pub proof fn every_text_is_taken(a: &str, b: &str, c: char, n: usize, max: u64)
    ensures
        call_requires(trim, (a,)),
        call_requires(strip_prefix, (a, b)),
        call_requires(first_piece, (a, c)),
        call_requires(comma_list, (a,)),
        call_requires(reads_as, (a, b)),
        call_requires(to_decimal, (n,)),
        call_requires(parse_unsigned, (a, max)),
{
}

} // verus!
