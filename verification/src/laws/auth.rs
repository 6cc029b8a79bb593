//! Who a request is from.
use crate::auth::{
    bearer, bearer_from, bearer_of, generate_token, hash_token, token_from, token_hash, token_text,
    Admin, Publisher, PublisherRow, TokenLookup, TokenUse,
};
use crate::db::{DbError, ParamView, Statement};
use crate::deps::{ascii_text, header_values, hex_text, random_bytes, sha256};
use crate::error::{Error, Result};
use crate::headers::header;
use crate::laws::replies::{is_failure, is_not_found, is_statement, lemma_is_statement};
use crate::laws::text::{is_trimmed, trimming_takes_off_white_space_and_nothing_else};
use crate::text::{after_prefix, is_blank, trimming_empties_only_blanks};
use axum::http::{HeaderMap, HeaderValue};
use vstd::prelude::*;
use vstd::utf8::encode_utf8;

verus! {

// --- tokens -----------------------------------------------------------------

/// A token is the prefix and its bytes in hexadecimal, and what is stored of it
/// is its digest in hexadecimal.
pub proof fn a_token_spells_its_bytes(bytes: &[u8; 32], token: String, text: &str, hash: String)
    requires
        call_ensures(token_from, (bytes,), token),
        call_ensures(hash_token, (text,), hash),
    ensures
        token@ == "hrp_"@ + hex_text(bytes@),
        hash@ == hex_text(sha256(encode_utf8(text@))),
{
}

/// A generated token spells thirty-two bytes.
pub proof fn a_generated_token_spells_some_bytes(token: String)
    requires
        call_ensures(generate_token, (), token),
    ensures
        exists|bytes: Seq<u8>|
            bytes.len() == 32 && token@ == "hrp_"@ + #[trigger] hex_text(bytes),
{
    let bytes = choose|bytes: Seq<u8>| bytes.len() == 32 && #[trigger] token_text(bytes) == token@;
    assert(token@ == "hrp_"@ + hex_text(bytes));
}

/// A generated token spells bytes that the generator drew.
pub(crate) proof fn a_generated_token_spells_drawn_bytes(token: String)
    requires
        call_ensures(generate_token, (), token),
    ensures
        exists|bytes: [u8; 32]|
            #[trigger] call_ensures(random_bytes, (), bytes) && token@ == "hrp_"@ + hex_text(bytes@),
{
    crate::auth::lemma_drawn(token@);
}

// --- credentials ------------------------------------------------------------

/// The text that a request sends under a header: of the first value, if all of
/// it is visible ASCII.
pub open spec fn sent(headers: HeaderMap<HeaderValue>, name: Seq<char>) -> Option<Seq<char>> {
    if header_values(headers).contains_key(name) {
        ascii_text(header_values(headers)[name][0])
    } else {
        None
    }
}

/// A header is read as the text that was sent under it.
pub proof fn a_header_is_read(headers: &HeaderMap<HeaderValue>, name: &str, res: Option<&str>)
    requires
        call_ensures(header, (headers, name), res),
    ensures
        res.deep_view() == sent(*headers, name@),
{
}

/// A credential presents a token exactly if it is `Bearer `, then the token,
/// with white space around it or not, and the token is not blank.
pub open spec fn presents(credential: Option<Seq<char>>, token: Option<Seq<char>>) -> bool {
    match token {
        Some(token) => {
            &&& token.len() > 0
            &&& credential is Some
            &&& exists|rest: Seq<char>|
                credential->0 == #[trigger] ("Bearer "@ + rest) && is_trimmed(rest, token)
        },
        None => credential matches Some(c) ==> forall|rest: Seq<char>|
            c == #[trigger] ("Bearer "@ + rest) ==> is_blank(rest),
    }
}

proof fn lemma_presents(credential: Option<Seq<char>>)
    ensures
        presents(credential, bearer_of(credential)),
{
    if let Some(c) = credential {
        let p = "Bearer "@;
        match after_prefix(c, p) {
            Some(rest) => {
                assert(c =~= p + rest);
                trimming_takes_off_white_space_and_nothing_else(rest);
                trimming_empties_only_blanks(rest);
                assert forall|other: Seq<char>| c == #[trigger] (p + other) implies other
                    == rest by {
                    assert((p + other).skip(p.len() as int) =~= other);
                }
            },
            None => {
                assert forall|rest: Seq<char>| c == #[trigger] (p + rest) implies is_blank(
                    rest,
                ) by {
                    assert((p + rest).subrange(0, p.len() as int) =~= p);
                    assert(p.is_prefix_of(c));
                }
            },
        }
    }
}

/// The token of a credential, and of a request, is the one it presents.
pub proof fn a_credential_presents_its_token(
    credential: Option<&str>,
    token: Option<&str>,
    headers: &HeaderMap<HeaderValue>,
    of_request: Option<&str>,
)
    requires
        call_ensures(bearer_from, (credential,), token),
        call_ensures(bearer, (headers,), of_request),
    ensures
        presents(credential.deep_view(), token.deep_view()),
        presents(sent(*headers, "authorization"@), of_request.deep_view()),
{
    lemma_presents(credential.deep_view());
    lemma_presents(sent(*headers, "authorization"@));
}

// --- publishers -------------------------------------------------------------

/// A request that presents no token is unauthorized. One that does is looked
/// up by the digest of that token among those that are not revoked.
pub proof fn a_publisher_is_looked_up(
    headers: &HeaderMap<HeaderValue>,
    token: Option<&str>,
    res: Result<TokenLookup>,
    direct: Result<TokenLookup>,
    lookup: TokenLookup,
    st: Statement,
)
    requires
        call_ensures(bearer, (headers,), token),
        call_ensures(Publisher::from_request_parts, (headers,), res),
        call_ensures(Publisher::presenting, (token,), direct),
        res == Ok::<TokenLookup, Error>(lookup) || direct == Ok::<TokenLookup, Error>(lookup),
        call_ensures(TokenLookup::statement, (&lookup,), st),
    ensures
        token is Some,
        is_statement(
            st,
            "SELECT p.id, p.github_login, p.blocked_at
               FROM registry_publisher_tokens t
               JOIN registry_publishers p ON p.id = t.publisher_id
              WHERE t.token_hash = $1 AND t.revoked_at IS NULL"@,
            seq![ParamView::Text(hex_text(sha256(encode_utf8(token->0@))))],
        ),
{
    lemma_is_statement(
        st,
        "SELECT p.id, p.github_login, p.blocked_at
               FROM registry_publisher_tokens t
               JOIN registry_publishers p ON p.id = t.publisher_id
              WHERE t.token_hash = $1 AND t.revoked_at IS NULL"@,
        seq![ParamView::Text(hex_text(sha256(encode_utf8(token->0@))))],
    );
}

/// A request is looked up exactly if it presents a token.
pub proof fn only_a_token_is_looked_up(
    headers: &HeaderMap<HeaderValue>,
    token: Option<&str>,
    res: Result<TokenLookup>,
    direct: Result<TokenLookup>,
)
    requires
        call_ensures(bearer, (headers,), token),
        call_ensures(Publisher::from_request_parts, (headers,), res),
        call_ensures(Publisher::presenting, (token,), direct),
    ensures
        res is Ok <==> token is Some,
        direct is Ok <==> token is Some,
        res matches Err(e) ==> e == Error::Unauthorized,
        direct matches Err(e) ==> e == Error::Unauthorized,
{
}

/// A token that is found is its publisher's, unless that is blocked. Its use
/// is noted under the same digest, and whether that works does not matter. One
/// that is not found is unauthorized.
pub proof fn a_publisher_is_resolved(
    token: &str,
    lookup: TokenLookup,
    reply: std::result::Result<Option<PublisherRow>, DbError>,
    res: Result<TokenUse>,
)
    requires
        call_ensures(Publisher::presenting, (Some(token),), Ok(lookup)),
        call_ensures(TokenLookup::resolve, (lookup, reply), res),
    ensures
        res is Ok <==> (reply is Ok && reply->Ok_0 is Some && reply->Ok_0->0.blocked_at is None),
        (reply is Ok && reply->Ok_0 is Some && reply->Ok_0->0.blocked_at is Some) ==> (
        res matches Err(Error::Forbidden(m)) && m@ == "publisher is blocked"@),
        (reply is Ok && reply->Ok_0 is None) ==> (res matches Err(e) && e == Error::Unauthorized),
        reply matches Err(e) ==> is_failure(res, e),
{
}

/// Whoever is let in is the publisher that was found, whatever came of noting
/// the use.
pub proof fn a_publisher_is_the_one_found(
    token: &str,
    lookup: TokenLookup,
    row: PublisherRow,
    used: TokenUse,
    st: Statement,
    noted: std::result::Result<u64, DbError>,
    publisher: Publisher,
    copy: Publisher,
)
    requires
        call_ensures(Publisher::presenting, (Some(token),), Ok(lookup)),
        call_ensures(TokenLookup::resolve, (lookup, Ok(Some(row))), Ok(used)),
        call_ensures(TokenUse::statement, (&used,), st),
        call_ensures(TokenUse::noted, (used, noted), publisher),
        call_ensures(Publisher::clone, (&publisher,), copy),
    ensures
        publisher.id == row.id,
        publisher.github_login@ == row.github_login@,
        copy.id == publisher.id,
        copy.github_login@ == publisher.github_login@,
        is_statement(
            st,
            "UPDATE registry_publisher_tokens SET last_used_at = now() WHERE token_hash = $1"@,
            seq![ParamView::Text(hex_text(sha256(encode_utf8(token@))))],
        ),
{
    lemma_is_statement(
        st,
        "UPDATE registry_publisher_tokens SET last_used_at = now() WHERE token_hash = $1"@,
        seq![ParamView::Text(hex_text(sha256(encode_utf8(token@))))],
    );
}

// --- the operator -----------------------------------------------------------

/// Without a configured token there is no route. With one, a request is the
/// operator's exactly if it presents a token of the same digest, and is
/// unauthorized otherwise.
pub proof fn the_operator_presents_the_configured_token(
    headers: &HeaderMap<HeaderValue>,
    token: Option<&str>,
    expected: Option<&str>,
    res: Result<Admin>,
    direct: Result<Admin>,
)
    requires
        call_ensures(bearer, (headers,), token),
        call_ensures(Admin::from_request_parts, (headers, expected), res),
        call_ensures(Admin::presenting, (expected, token), direct),
    ensures
        expected is None ==> is_not_found(res, "route"@) && is_not_found(direct, "route"@),
        res is Ok <==> expected is Some && token is Some && hex_text(
            sha256(encode_utf8(token->0@)),
        ) == hex_text(sha256(encode_utf8(expected->0@))),
        direct is Ok <==> res is Ok,
        expected is Some && res is Err ==> res->Err_0 == Error::Unauthorized && direct->Err_0
            == Error::Unauthorized,
        expected is Some && token is Some && expected->0@ == token->0@ ==> res is Ok,
{
}

} // verus!
