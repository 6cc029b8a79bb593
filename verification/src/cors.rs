//! Which pages may read the registry from a browser.
use crate::config::Config;
use crate::deps::{header_bytes, header_value, is_header_text};
use axum::http::HeaderValue;
use vstd::prelude::*;
use vstd::utf8::encode_utf8;

verus! {

/// Reading only: the write endpoints stay unreachable from a page the user did
/// not intend to be on.
pub const CORS_METHODS: [&'static str; 2] = ["GET", "HEAD"];

pub const CORS_HEADERS: [&'static str; 1] = ["content-type"];

pub const CORS_MAX_AGE_SECS: u64 = 3600;

/// What a browser is told it may do.
#[derive(Debug)]
pub struct CorsPolicy {
    pub origins: Vec<HeaderValue>,
    pub methods: [&'static str; 2],
    pub headers: [&'static str; 1],
    pub max_age_secs: u64,
}

/// The origins that can be sent in a header, in order, as the bytes they are
/// sent as.
pub open spec fn sendable(origins: Seq<Seq<char>>) -> Seq<Seq<u8>>
    decreases origins.len(),
{
    if origins.len() == 0 {
        Seq::empty()
    } else {
        let before = sendable(origins.drop_last());
        if is_header_text(origins.last()) {
            before.push(encode_utf8(origins.last()))
        } else {
            before
        }
    }
}

/// The bytes of each header value.
pub open spec fn bytes_of(values: Seq<HeaderValue>) -> Seq<Seq<u8>> {
    values.map_values(|v: HeaderValue| header_bytes(v))
}

/// CORS for the read endpoints.
///
/// The site is a static export on a different origin, so a browser fetch needs
/// this. Origins are listed explicitly rather than mirrored: `Any` plus
/// credentials is rejected by browsers anyway, and an allowlist keeps the
/// write endpoints unreachable from a page the user did not intend to be on.
///
/// No configured origins means no browser access, which is the right default
/// for a service whose main clients are harness instances making server-side
/// calls.
pub fn cors(config: &Config) -> (res: Option<CorsPolicy>)
    ensures
        match res {
            Some(policy) => {
                &&& sendable(config.cors_origins.deep_view()).len() > 0
                &&& bytes_of(policy.origins@) == sendable(config.cors_origins.deep_view())
                &&& policy.methods == CORS_METHODS
                &&& policy.headers == CORS_HEADERS
                &&& policy.max_age_secs == CORS_MAX_AGE_SECS
            },
            None => sendable(config.cors_origins.deep_view()).len() == 0,
        },
{
    let ghost all = config.cors_origins.deep_view();
    let mut origins: Vec<HeaderValue> = Vec::new();
    let mut i: usize = 0;
    assert(all.take(0) =~= Seq::<Seq<char>>::empty());
    assert(bytes_of(origins@) =~= Seq::<Seq<u8>>::empty());
    while i < config.cors_origins.len()
        invariant
            i <= config.cors_origins@.len(),
            all == config.cors_origins.deep_view(),
            bytes_of(origins@) == sendable(all.take(i as int)),
        decreases config.cors_origins@.len() - i,
    {
        let origin = config.cors_origins[i].as_str();
        assert(origin@ == all[i as int]);
        assert(all.take(i + 1).drop_last() =~= all.take(i as int));
        let ghost before = origins@;
        if let Some(value) = header_value(origin) {
            origins.push(value);
            assert(bytes_of(origins@) =~= bytes_of(before).push(encode_utf8(origin@)));
        }
        i = i + 1;
    }
    assert(all.take(i as int) =~= all);
    assert(bytes_of(origins@).len() == origins@.len());
    if origins.is_empty() {
        return None;
    }
    Some(
        CorsPolicy {
            origins,
            methods: CORS_METHODS,
            headers: CORS_HEADERS,
            max_age_secs: CORS_MAX_AGE_SECS,
        },
    )
}

/// Only a configured origin is ever allowed.
pub proof fn only_configured_origins_are_allowed(origins: Seq<Seq<char>>, i: int)
    requires
        0 <= i < sendable(origins).len(),
    ensures
        exists|j: int|
            0 <= j < origins.len() && sendable(origins)[i] == encode_utf8(#[trigger] origins[j]),
    decreases origins.len(),
{
    let before = sendable(origins.drop_last());
    if i < before.len() {
        only_configured_origins_are_allowed(origins.drop_last(), i);
        let j = choose|j: int|
            0 <= j < origins.drop_last().len() && before[i] == encode_utf8(
                #[trigger] origins.drop_last()[j],
            );
        assert(origins[j] == origins.drop_last()[j]);
    } else {
        assert(sendable(origins)[i] == encode_utf8(origins[origins.len() - 1]));
    }
}

} // verus!
