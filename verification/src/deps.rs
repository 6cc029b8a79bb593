//! The outside functions the registry calls, and what is believed of each.
//!
//! Nothing in this module is proved: it is the whole of what the proofs in the
//! other modules rest on, apart from the standard library.
use axum::http::{HeaderMap, HeaderValue};
use rand::RngCore;
use sha2::{Digest, Sha256};
use std::time::Instant;
use uuid::Uuid;
use vstd::prelude::*;

verus! {

/// An identifier the database assigns. Carried from one reply to the next
/// statement, never looked into.
#[verifier::external_type_specification]
#[verifier::external_body]
pub struct ExUuid(Uuid);

/// A reading of the monotonic clock.
#[verifier::external_type_specification]
#[verifier::external_body]
pub struct ExInstant(Instant);

/// The value of one request header.
#[verifier::external_type_specification]
#[verifier::external_body]
pub struct ExHeaderValue(HeaderValue);

/// The headers of a request.
#[verifier::external_type_specification]
#[verifier::external_body]
#[verifier::reject_recursive_types(T)]
pub struct ExHeaderMap<T>(HeaderMap<T>);

/// What a header map holds: for each name, in lower case, the bytes of its
/// values in the order they were added.
pub uninterp spec fn header_values(headers: HeaderMap<HeaderValue>) -> Map<
    Seq<char>,
    Seq<Seq<u8>>,
>;

/// The bytes a header value holds.
pub uninterp spec fn header_bytes(value: HeaderValue) -> Seq<u8>;

/// The SHA-256 digest of some data.
pub uninterp spec fn sha256(data: Seq<u8>) -> Seq<u8>;

// --- headers ----------------------------------------------------------------

/// A header name as it is stored: lower-case letters, digits and dashes.
pub open spec fn is_header_name(name: Seq<char>) -> bool {
    &&& 0 < name.len() <= 64
    &&& forall|i: int|
        0 <= i < name.len() ==> {
            let c = #[trigger] name[i];
            ('a' <= c && c <= 'z') || ('0' <= c && c <= '9') || c == '-'
        }
}

/// `HeaderMap::get`: the first value stored under a name, or nothing if there
/// is none. Names compare without regard to case, so only the stored form of a
/// name is accepted here.
#[verifier::external_body]
pub(crate) fn header_get<'a>(headers: &'a HeaderMap<HeaderValue>, name: &str) -> (value: Option<
    &'a HeaderValue,
>)
    requires
        is_header_name(name@),
    ensures
        match value {
            Some(v) => {
                &&& header_values(*headers).contains_key(name@)
                &&& header_values(*headers)[name@].len() > 0
                &&& header_values(*headers)[name@][0] == header_bytes(*v)
            },
            None => !header_values(*headers).contains_key(name@),
        },
{
    headers.get(name)
}

/// A byte `HeaderValue::to_str` lets through: visible ASCII, a space or a tab.
pub open spec fn is_visible_ascii(b: u8) -> bool {
    (32 <= b && b < 127) || b == 9
}

/// The text of a header, if every byte of it is visible ASCII.
pub open spec fn ascii_text(bytes: Seq<u8>) -> Option<Seq<char>> {
    if forall|i: int| 0 <= i < bytes.len() ==> is_visible_ascii(#[trigger] bytes[i]) {
        Some(bytes.map_values(|b: u8| b as char))
    } else {
        None
    }
}

/// `HeaderValue::to_str`: the value as text if it holds visible ASCII alone,
/// and an error (dropped here) otherwise.
#[verifier::external_body]
pub(crate) fn header_text<'a>(value: &'a HeaderValue) -> (text: Option<&'a str>)
    ensures
        match text {
            Some(t) => ascii_text(header_bytes(*value)) == Some(t@),
            None => ascii_text(header_bytes(*value)) is None,
        },
{
    value.to_str().ok()
}

/// A byte `HeaderValue::from_str` lets through: anything but the control
/// characters, of which it lets through the tab.
pub open spec fn is_header_byte(b: u8) -> bool {
    (32 <= b && b != 127) || b == 9
}

/// Whether some text may be sent as the value of a header.
pub open spec fn is_header_text(text: Seq<char>) -> bool {
    let bytes = vstd::utf8::encode_utf8(text);
    forall|i: int| 0 <= i < bytes.len() ==> is_header_byte(#[trigger] bytes[i])
}

/// `HeaderValue::from_str`: the UTF-8 bytes of the text as a header value, if
/// each of them may stand in one, and an error (dropped here) otherwise.
#[verifier::external_body]
pub(crate) fn header_value(text: &str) -> (value: Option<HeaderValue>)
    ensures
        match value {
            Some(v) => is_header_text(text@) && header_bytes(v) == vstd::utf8::encode_utf8(text@),
            None => !is_header_text(text@),
        },
{
    HeaderValue::from_str(text).ok()
}

// --- digests and random bytes -----------------------------------------------

/// The lower-case hexadecimal digit of a value below sixteen.
pub open spec fn hex_digit(n: int) -> char {
    if n < 10 {
        (('0' as u8) + n) as char
    } else {
        (('a' as u8) + (n - 10)) as char
    }
}

/// Two lower-case hexadecimal digits for each byte, the high half first.
pub open spec fn hex_text(bytes: Seq<u8>) -> Seq<char> {
    Seq::new(
        2 * bytes.len(),
        |i: int|
            hex_digit(
                if i % 2 == 0 {
                    bytes[i / 2] as int / 16
                } else {
                    bytes[i / 2] as int % 16
                },
            ),
    )
}

/// `hex::encode`: two lower-case hexadecimal digits for each byte.
#[verifier::external_body]
pub(crate) fn hex_encode(bytes: &[u8]) -> (text: String)
    ensures
        text@ == hex_text(bytes@),
{
    hex::encode(bytes)
}

/// `Sha256::digest`: thirty-two bytes that depend on the data alone. Which
/// bytes they are is not stated, nor that other data has another digest.
#[verifier::external_body]
pub(crate) fn sha256_digest(data: &[u8]) -> (digest: [u8; 32])
    ensures
        digest@ == sha256(data@),
{
    Sha256::digest(data).into()
}

/// `RngCore::fill_bytes` on the thread's generator: thirty-two bytes. Any may
/// come back; that they cannot be foreseen is not stated.
#[verifier::external_body]
pub(crate) fn random_bytes() -> (bytes: [u8; 32]) {
    let mut bytes = [0u8; 32];
    rand::thread_rng().fill_bytes(&mut bytes);
    bytes
}

// --- the clock --------------------------------------------------------------

/// `Instant::now`. Any reading may come back, so nothing is said of it.
#[verifier::external_body]
pub(crate) fn clock_now() -> (now: Instant) {
    Instant::now()
}

/// `Instant::elapsed`, in nanoseconds. Any span may come back; that a later
/// call returns no less is not stated.
#[verifier::external_body]
pub(crate) fn nanos_since(start: &Instant) -> (nanos: u128) {
    start.elapsed().as_nanos()
}

} // verus!
