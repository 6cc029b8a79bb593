//! Publisher tokens.
//!
//! A token is 32 random bytes, handed out once and stored only as a SHA-256
//! digest. SHA-256 rather than a password KDF is deliberate: the secret is
//! full-entropy machine-generated, so there is no dictionary to grind and
//! nothing for a slow hash to buy, while a KDF would run on every single
//! request and hand anyone a cheap way to saturate the CPU.
use crate::db::{bound, DbError, Param, ParamView, Statement, StatementView};
use crate::deps::{hex_digit, hex_encode, hex_text, random_bytes, sha256, sha256_digest};
use crate::error::{refused, Error, ErrorView, Result};
use crate::headers::{header, text_under};
use crate::models::Timestamp;
use crate::text::{
    after_prefix, is_white_space, strip_prefix, trim, trimmed, trimming_keeps_tight_text,
};
use axum::http::{HeaderMap, HeaderValue};
use uuid::Uuid;
use vstd::prelude::*;
use vstd::utf8::encode_utf8;

verus! {

/// Number of random bytes behind a token. 256 bits, so the digest is the
/// weakest link rather than the secret.
pub const TOKEN_BYTES: usize = 32;

/// Prefixed so a leaked string is recognisable in a log or a paste, and so
/// secret scanners have something to match.
pub const TOKEN_PREFIX: &'static str = "hrp_";

// --- tokens -----------------------------------------------------------------

/// The token that some random bytes make.
pub open spec fn token_text(bytes: Seq<u8>) -> Seq<char> {
    TOKEN_PREFIX@ + hex_text(bytes)
}

/// A token of the kind that is handed out.
pub open spec fn is_issued(token: Seq<char>) -> bool {
    exists|bytes: Seq<u8>| bytes.len() == TOKEN_BYTES && #[trigger] token_text(bytes) == token
}

/// A token that the random generator may have drawn the bytes of.
pub closed spec fn is_drawn(token: Seq<char>) -> bool {
    exists|bytes: [u8; 32]|
        #[trigger] call_ensures(random_bytes, (), bytes) && token == token_text(bytes@)
}

/// What it is to be drawn.
pub(crate) proof fn lemma_drawn(token: Seq<char>)
    requires
        is_drawn(token),
    ensures
        exists|bytes: [u8; 32]|
            #[trigger] call_ensures(random_bytes, (), bytes) && token == token_text(bytes@),
{
}

/// The form in which a token is stored and looked up: its SHA-256 digest in
/// hexadecimal.
pub open spec fn token_hash(token: Seq<char>) -> Seq<char> {
    hex_text(sha256(encode_utf8(token)))
}

/// The token that some random bytes make.
pub fn token_from(bytes: &[u8; 32]) -> (token: String)
    ensures
        token@ == token_text(bytes@),
{
    TOKEN_PREFIX.to_owned().concat(hex_encode(bytes.as_slice()).as_str())
}

/// Generate a token. Returned once, in clear, and never recoverable after.
pub fn generate_token() -> (token: String)
    ensures
        is_issued(token@),
        is_drawn(token@),
{
    let bytes = random_bytes();
    assert(bytes@.len() == TOKEN_BYTES);
    token_from(&bytes)
}

/// The form in which a token is stored and looked up. It is never the token
/// itself.
pub fn hash_token(token: &str) -> (hash: String)
    ensures
        hash@ == token_hash(token@),
        hash@.len() == 64,
        is_issued(token@) ==> hash@ != token@,
{
    let digest = sha256_digest(token.as_bytes());
    assert(digest@.len() == 32);
    proof {
        if is_issued(token@) {
            an_issued_token_is_prefixed_and_long(token@);
        }
    }
    hex_encode(digest.as_slice())
}

/// An issued token starts with the prefix and spells all of its random bytes.
pub proof fn an_issued_token_is_prefixed_and_long(token: Seq<char>)
    requires
        is_issued(token),
    ensures
        TOKEN_PREFIX@.is_prefix_of(token),
        token.len() == TOKEN_PREFIX@.len() + 2 * TOKEN_BYTES,
        token.len() == 68,
{
    reveal_strlit("hrp_");
    let bytes = choose|bytes: Seq<u8>|
        bytes.len() == TOKEN_BYTES && #[trigger] token_text(bytes) == token;
    assert(token.subrange(0, TOKEN_PREFIX@.len() as int) =~= TOKEN_PREFIX@);
}

/// Different random bytes make different tokens: none of the entropy is lost.
pub proof fn different_bytes_make_different_tokens(a: Seq<u8>, b: Seq<u8>)
    requires
        token_text(a) == token_text(b),
    ensures
        a == b,
{
    let p = TOKEN_PREFIX@.len() as int;
    let x = hex_text(a);
    let y = hex_text(b);
    assert(token_text(a).skip(p) =~= x);
    assert(token_text(b).skip(p) =~= y);
    assert(x.len() == y.len());
    assert forall|i: int| 0 <= i < a.len() implies a[i] == b[i] by {
        assert(x[2 * i] == y[2 * i]);
        assert(x[2 * i + 1] == y[2 * i + 1]);
        lemma_hex_digit_is_unique(a[i] as int / 16, b[i] as int / 16);
        lemma_hex_digit_is_unique(a[i] as int % 16, b[i] as int % 16);
    }
    assert(a =~= b);
}

proof fn lemma_hex_digit_is_unique(m: int, n: int)
    requires
        0 <= m < 16,
        0 <= n < 16,
        hex_digit(m) == hex_digit(n),
    ensures
        m == n,
{
}

// --- credentials ------------------------------------------------------------

/// The header a credential arrives in.
pub const AUTHORIZATION: &'static str = "authorization";

/// What comes before the token in that header.
pub const BEARER: &'static str = "Bearer ";

/// The token a credential presents, if it presents one.
pub open spec fn bearer_of(credential: Option<Seq<char>>) -> Option<Seq<char>> {
    match credential {
        Some(text) => match after_prefix(text, BEARER@) {
            Some(rest) => if trimmed(rest).len() == 0 {
                None
            } else {
                Some(trimmed(rest))
            },
            None => None,
        },
        None => None,
    }
}

/// The token a credential presents, if it presents one.
pub fn bearer_from<'a>(credential: Option<&'a str>) -> (token: Option<&'a str>)
    ensures
        token.deep_view() == bearer_of(credential.deep_view()),
{
    match credential {
        Some(text) => match strip_prefix(text, BEARER) {
            Some(rest) => {
                let token = trim(rest);
                if token.is_empty() {
                    None
                } else {
                    Some(token)
                }
            },
            None => None,
        },
        None => None,
    }
}

/// The token a request presents, if it presents one.
pub fn bearer<'a>(headers: &'a HeaderMap<HeaderValue>) -> (token: Option<&'a str>)
    ensures
        token.deep_view() == bearer_of(text_under(*headers, AUTHORIZATION@)),
{
    proof {
        reveal_strlit("authorization");
    }
    bearer_from(header(headers, AUTHORIZATION))
}

/// A token with no white space around it is presented as it is.
pub proof fn a_tight_token_is_presented_whole(token: Seq<char>)
    requires
        token.len() > 0,
        !is_white_space(token[0]),
        !is_white_space(token.last()),
    ensures
        bearer_of(Some(BEARER@ + token)) == Some(token),
{
    let text = BEARER@ + token;
    assert(text.skip(BEARER@.len() as int) =~= token);
    assert(BEARER@.is_prefix_of(text)) by {
        assert(text.subrange(0, BEARER@.len() as int) =~= BEARER@);
    }
    trimming_keeps_tight_text(token);
}

/// An issued token is presented as it was handed out, so it is looked up under
/// the digest it was stored under.
pub proof fn an_issued_token_is_presented_whole(token: Seq<char>)
    requires
        is_issued(token),
    ensures
        bearer_of(Some(BEARER@ + token)) == Some(token),
{
    reveal_strlit("hrp_");
    let bytes = choose|bytes: Seq<u8>|
        bytes.len() == TOKEN_BYTES && #[trigger] token_text(bytes) == token;
    assert(token[0] == 'h');
    let last = bytes[31] as int % 16;
    assert(token.last() == hex_digit(last));
    a_tight_token_is_presented_whole(token);
}

// --- publishers -------------------------------------------------------------

/// A caller that presented a live token belonging to an unblocked publisher.
#[derive(Debug)]
pub struct Publisher {
    pub id: Uuid,
    pub github_login: String,
}

impl Clone for Publisher {
    fn clone(&self) -> (res: Self)
        ensures
            res == *self,
    {
        Publisher { id: self.id, github_login: self.github_login.clone() }
    }
}

/// The publisher a live token belongs to, and since when it is blocked, if it
/// is.
#[derive(Debug)]
pub struct PublisherRow {
    pub id: Uuid,
    pub github_login: String,
    pub blocked_at: Option<Timestamp>,
}

/// One statement so a valid-but-blocked publisher cannot be told apart from an
/// unknown token by timing two round trips.
pub const SELECT_TOKEN: &'static str = "SELECT p.id, p.github_login, p.blocked_at
               FROM registry_publisher_tokens t
               JOIN registry_publishers p ON p.id = t.publisher_id
              WHERE t.token_hash = $1 AND t.revoked_at IS NULL";

pub const TOUCH_TOKEN: &'static str =
    "UPDATE registry_publisher_tokens SET last_used_at = now() WHERE token_hash = $1";

/// The statement that looks a token up: by its digest alone.
pub open spec fn lookup_by(hash: Seq<char>) -> StatementView {
    bound(SELECT_TOKEN@, seq![ParamView::Text(hash)])
}

/// A presented token, to be looked up by its digest.
pub struct TokenLookup {
    hash: String,
}

/// A token that was found live, its use to be noted.
pub struct TokenUse {
    hash: String,
    publisher: Publisher,
}

/// Who a looked-up token belongs to: nobody, a blocked publisher, or a
/// publisher that may go on.
pub open spec fn publisher_verdict(
    reply: std::result::Result<Option<PublisherRow>, DbError>,
) -> std::result::Result<Publisher, ErrorView> {
    match reply {
        Ok(Some(row)) => if row.blocked_at is Some {
            Err(ErrorView::Forbidden("publisher is blocked"@))
        } else {
            Ok(Publisher { id: row.id, github_login: row.github_login })
        },
        Ok(None) => Err(ErrorView::Unauthorized),
        Err(e) => Err(ErrorView::Database(e@)),
    }
}

impl Publisher {
    /// The publisher behind a request, from its headers: to be looked up by
    /// the token they present.
    pub fn from_request_parts(headers: &HeaderMap<HeaderValue>) -> (res: Result<TokenLookup>)
        ensures
            match bearer_of(text_under(*headers, AUTHORIZATION@)) {
                Some(token) => res matches Ok(lookup) && lookup.hash() == token_hash(token),
                None => refused(res, ErrorView::Unauthorized),
            },
    {
        Publisher::presenting(bearer(headers))
    }

    /// The publisher behind a token: to be looked up by its digest.
    pub fn presenting(token: Option<&str>) -> (res: Result<TokenLookup>)
        ensures
            match token {
                Some(token) => res matches Ok(lookup) && lookup.hash() == token_hash(token@),
                None => refused(res, ErrorView::Unauthorized),
            },
    {
        match token {
            Some(token) => Ok(TokenLookup { hash: hash_token(token) }),
            None => Err(Error::Unauthorized),
        }
    }
}

impl TokenLookup {
    /// The digest the token is looked up by.
    pub closed spec fn hash(&self) -> Seq<char> {
        self.hash@
    }

    pub fn statement(&self) -> (res: Statement)
        ensures
            res@ == lookup_by(self.hash()),
    {
        let res = Statement::new(SELECT_TOKEN).bind(Param::Text(self.hash.clone()));
        assert(res@.params =~= lookup_by(self.hash()).params);
        res
    }

    pub fn resolve(
        self,
        reply: std::result::Result<Option<PublisherRow>, DbError>,
    ) -> (res: Result<TokenUse>)
        ensures
            match publisher_verdict(reply) {
                Ok(publisher) => res matches Ok(used) && used.hash() == self.hash()
                    && used.publisher() == publisher,
                Err(e) => refused(res, e),
            },
    {
        match reply {
            Ok(Some(row)) => if row.blocked_at.is_some() {
                Err(Error::Forbidden("publisher is blocked".to_owned()))
            } else {
                Ok(
                    TokenUse {
                        hash: self.hash,
                        publisher: Publisher { id: row.id, github_login: row.github_login },
                    },
                )
            },
            Ok(None) => Err(Error::Unauthorized),
            Err(e) => Err(Error::from(e)),
        }
    }
}

impl TokenUse {
    /// The digest the token was found by.
    pub closed spec fn hash(&self) -> Seq<char> {
        self.hash@
    }

    /// The publisher it belongs to.
    pub closed spec fn publisher(&self) -> Publisher {
        self.publisher
    }

    pub fn statement(&self) -> (res: Statement)
        ensures
            res@ == bound(TOUCH_TOKEN@, seq![ParamView::Text(self.hash())]),
    {
        let res = Statement::new(TOUCH_TOKEN).bind(Param::Text(self.hash.clone()));
        assert(res@.params =~= seq![ParamView::Text(self.hash())]);
        res
    }

    /// The publisher, whether or not the use could be noted: a failed
    /// bookkeeping write must not fail the request it was only observing.
    pub fn noted(self, _reply: std::result::Result<u64, DbError>) -> (res: Publisher)
        ensures
            res == self.publisher(),
    {
        self.publisher
    }
}

/// A publisher is authenticated exactly when its live token was found and it
/// is not blocked.
pub proof fn only_an_unblocked_publisher_is_let_in(
    reply: std::result::Result<Option<PublisherRow>, DbError>,
)
    ensures
        publisher_verdict(reply) is Ok <==> (reply matches Ok(row) && row is Some
            && row->0.blocked_at is None),
{
}

/// A token that is not known, or no longer live, is answered like no token at
/// all: the difference would confirm that the token was real. A revoked one is
/// not looked up, so it is no more known than one that never was.
pub proof fn an_unknown_token_is_answered_like_none(
    reply: std::result::Result<Option<PublisherRow>, DbError>,
)
    requires
        reply is Ok && reply->Ok_0 is None,
    ensures
        publisher_verdict(reply) == Err::<Publisher, ErrorView>(ErrorView::Unauthorized),
        ErrorView::Unauthorized.status() == 401,
        " WHERE t.token_hash = $1 AND t.revoked_at IS NULL"@.is_suffix_of(SELECT_TOKEN@),
{
    let live = " WHERE t.token_hash = $1 AND t.revoked_at IS NULL"@;
    reveal_strlit(" WHERE t.token_hash = $1 AND t.revoked_at IS NULL");
    reveal_strlit(
        "SELECT p.id, p.github_login, p.blocked_at
               FROM registry_publisher_tokens t
               JOIN registry_publishers p ON p.id = t.publisher_id
              WHERE t.token_hash = $1 AND t.revoked_at IS NULL",
    );
    let n = SELECT_TOKEN@.len() as int;
    assert(SELECT_TOKEN@.subrange(n - live.len(), n) =~= live);
}

/// A blocked publisher never gets past its token.
pub proof fn a_blocked_publisher_is_refused(row: PublisherRow)
    requires
        row.blocked_at is Some,
    ensures
        publisher_verdict(Ok(Some(row))) is Err,
        publisher_verdict(Ok(Some(row)))->Err_0.status() == 403,
{
}

// --- the operator -----------------------------------------------------------

/// Guards the admin endpoints. Separate from publisher tokens because these
/// grant things no publisher may do -- minting tokens, blocking accounts,
/// setting `official`.
///
/// Only a request that presents the configured token makes one.
#[derive(Debug)]
pub struct Admin(());

/// Whether a caller is the operator. Without a configured token there is no
/// operator, and no route either.
pub open spec fn admin_verdict(
    expected: Option<Seq<char>>,
    presented: Option<Seq<char>>,
) -> std::result::Result<(), ErrorView> {
    match expected {
        Some(expected) => match presented {
            Some(presented) => if token_hash(presented) == token_hash(expected) {
                Ok(())
            } else {
                Err(ErrorView::Unauthorized)
            },
            None => Err(ErrorView::Unauthorized),
        },
        None => Err(ErrorView::NotFound("route"@)),
    }
}

impl Admin {
    /// The operator behind a request, from its headers and the configured
    /// token.
    pub fn from_request_parts(
        headers: &HeaderMap<HeaderValue>,
        admin_token: Option<&str>,
    ) -> (res: Result<Admin>)
        ensures
            match admin_verdict(
                admin_token.deep_view(),
                bearer_of(text_under(*headers, AUTHORIZATION@)),
            ) {
                Ok(_) => res is Ok,
                Err(e) => refused(res, e),
            },
    {
        Admin::presenting(admin_token, bearer(headers))
    }

    /// The operator, if the token presented is the one configured.
    pub fn presenting(expected: Option<&str>, presented: Option<&str>) -> (res: Result<Admin>)
        ensures
            match admin_verdict(expected.deep_view(), presented.deep_view()) {
                Ok(_) => res is Ok,
                Err(e) => refused(res, e),
            },
    {
        // No configured token means the admin surface does not exist, rather
        // than existing with an empty password.
        let expected = match expected {
            Some(token) => token,
            None => {
                return Err(Error::NotFound("route"));
            },
        };
        let presented = match presented {
            Some(token) => token,
            None => {
                return Err(Error::Unauthorized);
            },
        };
        // Compare digests, so the comparison is over fixed-length input.
        if hash_token(presented) == hash_token(expected) {
            Ok(Admin(()))
        } else {
            Err(Error::Unauthorized)
        }
    }
}

/// Without a configured token the admin surface does not exist: every request
/// is answered 404, whatever it presents.
pub proof fn without_a_token_there_is_no_admin_surface(presented: Option<Seq<char>>)
    ensures
        admin_verdict(None, presented) is Err,
        admin_verdict(None, presented)->Err_0 == ErrorView::NotFound("route"@),
        admin_verdict(None, presented)->Err_0.status() == 404,
{
}

/// The configured token is let in, and a request without a credential is not.
pub proof fn the_configured_token_is_let_in(token: Seq<char>)
    requires
        token.len() > 0,
        !is_white_space(token[0]),
        !is_white_space(token.last()),
    ensures
        admin_verdict(Some(token), bearer_of(Some(BEARER@ + token))) is Ok,
        admin_verdict(Some(token), bearer_of(None)) == Err::<(), ErrorView>(ErrorView::Unauthorized),
{
    a_tight_token_is_presented_whole(token);
}

} // verus!
