//! Registry-operator endpoints.
//!
//! These are the reason this service is a separate, private program rather
//! than part of the open-source harness. Minting publisher tokens, blocking an
//! account and setting the `official` badge are things the *operator* of a
//! registry does; shipping them inside the harness would put endpoints for
//! this registry on every self-hosted instance.
//!
//! Guarded by `Admin`, which returns 404 when `ADMIN_TOKEN` is unset, so a
//! deployment that forgets the secret has no admin surface at all instead of
//! an unauthenticated one.
use crate::auth::{
    an_issued_token_is_presented_whole, bearer_of, generate_token, hash_token, is_drawn, is_issued,
    lookup_by, token_hash, Admin, BEARER,
};
use crate::db::{bound, copy_text, DbError, Param, ParamView, Statement, StatementView};
use crate::error::{
    answered, contested, expect_answer, expect_touched, expect_unique, refused, touched, Error,
    ErrorView, Result,
};
use crate::models::IssuedToken;
use crate::text::{blank, trimmed};
use uuid::Uuid;
use vstd::prelude::*;

verus! {

/// Upsert on github_id: issuing a second token for an existing publisher is
/// the normal case, not an error. The login is refreshed along the way, since
/// it can have been renamed since the last token.
pub const UPSERT_PUBLISHER: &'static str =
    "INSERT INTO registry_publishers (github_id, github_login, display_name, avatar_url)
         VALUES ($1, $2, $3, $4)
         ON CONFLICT (github_id) DO UPDATE
            SET github_login = EXCLUDED.github_login,
                display_name = COALESCE(EXCLUDED.display_name, registry_publishers.display_name),
                avatar_url = COALESCE(EXCLUDED.avatar_url, registry_publishers.avatar_url)
         RETURNING id";

pub const INSERT_TOKEN: &'static str =
    "INSERT INTO registry_publisher_tokens (publisher_id, token_hash, name)
         VALUES ($1, $2, $3)";

/// Never inferred from the publisher. The schema notes why: infer it and the
/// first lookalike account inherits the badge.
pub const SET_OFFICIAL: &'static str = "UPDATE registry_workflows SET official = $2 WHERE slug = $1";

/// Blocking stops further publishing without deleting existing work, so
/// installs that already took a workflow keep resolving.
pub const SET_BLOCKED: &'static str = "UPDATE registry_publishers
            SET blocked_at = CASE WHEN $2 THEN now() ELSE NULL END
          WHERE github_id = $1";

// --- tokens -----------------------------------------------------------------

#[derive(Debug)]
pub struct IssueToken {
    /// GitHub's numeric id, never the login. The schema is explicit: a login
    /// can be renamed and the old one claimed by someone else, so trusting it
    /// would let an account be inherited along with its workflows.
    pub github_id: i64,
    pub github_login: String,
    pub display_name: Option<String>,
    pub avatar_url: Option<String>,
    /// What this token is for, so one can be revoked without killing the rest.
    pub name: String,
}

impl IssueToken {
    /// What the request is refused for, if it is.
    pub open spec fn verdict(&self) -> std::result::Result<(), ErrorView> {
        if trimmed(self.name@).len() == 0 {
            Err(ErrorView::BadRequest("name is required"@))
        } else {
            Ok(())
        }
    }
}

/// A token to be issued, its transaction to be begun.
pub struct IssueBegin {
    body: IssueToken,
}

/// A token to be issued, its publisher to be written.
pub struct IssuePublisher {
    body: IssueToken,
}

/// A new token, its digest to be written.
pub struct IssueWrite {
    publisher: Uuid,
    body: IssueToken,
    token: String,
}

/// A new token, its transaction to be committed.
pub struct IssueCommit {
    publisher: Uuid,
    body: IssueToken,
    token: String,
}

/// The statement that writes the publisher a token is for.
pub open spec fn publisher_of(body: IssueToken) -> StatementView {
    bound(
        UPSERT_PUBLISHER@,
        seq![
            ParamView::BigInt(body.github_id),
            ParamView::Text(body.github_login@),
            ParamView::MaybeText(body.display_name.deep_view()),
            ParamView::MaybeText(body.avatar_url.deep_view()),
        ],
    )
}

/// The statement that stores a token: its digest, never the token itself.
pub open spec fn storing_of(publisher: Uuid, token: Seq<char>, name: Seq<char>) -> StatementView {
    bound(
        INSERT_TOKEN@,
        seq![ParamView::Id(publisher), ParamView::Text(token_hash(token)), ParamView::Text(name)],
    )
}

/// Issue a publisher token.
pub fn issue_token(_admin: Admin, body: IssueToken) -> (res: Result<IssueBegin>)
    ensures
        match body.verdict() {
            Ok(_) => res matches Ok(next) && next.body() == body,
            Err(e) => refused(res, e),
        },
{
    if blank(body.name.as_str()) {
        return Err(Error::BadRequest("name is required".to_owned()));
    }
    Ok(IssueBegin { body })
}

impl IssueBegin {
    pub closed spec fn body(&self) -> IssueToken {
        self.body
    }

    pub fn begun(self, reply: std::result::Result<(), DbError>) -> (res: Result<IssuePublisher>)
        ensures
            match answered(reply) {
                Ok(_) => res matches Ok(next) && next.body() == self.body(),
                Err(e) => refused(res, e),
            },
    {
        expect_answer(reply)?;
        Ok(IssuePublisher { body: self.body })
    }
}

impl IssuePublisher {
    pub closed spec fn body(&self) -> IssueToken {
        self.body
    }

    pub fn statement(&self) -> (res: Statement)
        ensures
            res@ == publisher_of(self.body()),
    {
        let res = Statement::new(UPSERT_PUBLISHER).bind(Param::BigInt(self.body.github_id)).bind(
            Param::Text(self.body.github_login.clone()),
        ).bind(Param::MaybeText(copy_text(&self.body.display_name))).bind(
            Param::MaybeText(copy_text(&self.body.avatar_url)),
        );
        assert(res@.params =~= publisher_of(self.body()).params);
        res
    }

    /// With the publisher written, a token is generated for it.
    pub fn upserted(self, reply: std::result::Result<Uuid, DbError>) -> (res: Result<IssueWrite>)
        ensures
            match answered(reply) {
                Ok(id) => res matches Ok(next) && next.publisher() == id && next.body()
                    == self.body() && is_issued(next.token()) && is_drawn(next.token()),
                Err(e) => refused(res, e),
            },
    {
        self.upserted_with(reply, generate_token())
    }

    /// With the publisher written, this is its token.
    pub fn upserted_with(
        self,
        reply: std::result::Result<Uuid, DbError>,
        token: String,
    ) -> (res: Result<IssueWrite>)
        ensures
            match answered(reply) {
                Ok(id) => res matches Ok(next) && next.publisher() == id && next.body()
                    == self.body() && next.token() == token@,
                Err(e) => refused(res, e),
            },
    {
        let publisher = expect_answer(reply)?;
        Ok(IssueWrite { publisher, body: self.body, token })
    }
}

impl IssueWrite {
    pub closed spec fn publisher(&self) -> Uuid {
        self.publisher
    }

    pub closed spec fn body(&self) -> IssueToken {
        self.body
    }

    pub closed spec fn token(&self) -> Seq<char> {
        self.token@
    }

    pub fn statement(&self) -> (res: Statement)
        ensures
            res@ == storing_of(self.publisher(), self.token(), self.body().name@),
    {
        let res = Statement::new(INSERT_TOKEN).bind(Param::Id(self.publisher)).bind(
            Param::Text(hash_token(self.token.as_str())),
        ).bind(Param::Text(self.body.name.clone()));
        assert(res@.params =~= storing_of(
            self.publisher(),
            self.token(),
            self.body().name@,
        ).params);
        res
    }

    pub fn inserted(self, reply: std::result::Result<u64, DbError>) -> (res: Result<IssueCommit>)
        ensures
            match contested(reply, "token collision; retry"@) {
                Ok(_) => res matches Ok(next) && next.publisher() == self.publisher()
                    && next.body() == self.body() && next.token() == self.token(),
                Err(e) => refused(res, e),
            },
    {
        expect_unique(reply, "token collision; retry")?;
        Ok(IssueCommit { publisher: self.publisher, body: self.body, token: self.token })
    }
}

impl IssueCommit {
    pub closed spec fn publisher(&self) -> Uuid {
        self.publisher
    }

    pub closed spec fn body(&self) -> IssueToken {
        self.body
    }

    pub closed spec fn token(&self) -> Seq<char> {
        self.token@
    }

    /// The token, in clear, once: nothing but this answer ever holds it.
    pub fn committed(self, reply: std::result::Result<(), DbError>) -> (res: Result<IssuedToken>)
        ensures
            match answered(reply) {
                Ok(_) => res matches Ok(done) && {
                    &&& done.publisher_id == self.publisher()
                    &&& done.github_login == self.body().github_login
                    &&& done.name == self.body().name
                    &&& done.token@ == self.token()
                },
                Err(e) => refused(res, e),
            },
    {
        expect_answer(reply)?;
        Ok(
            IssuedToken {
                publisher_id: self.publisher,
                github_login: self.body.github_login,
                name: self.body.name,
                token: self.token,
            },
        )
    }
}

/// What is stored of a token is what a request presenting it is looked up by:
/// the publisher a token was issued to is the one it authenticates as.
pub proof fn an_issued_token_is_looked_up_as_it_was_stored(
    publisher: Uuid,
    token: Seq<char>,
    name: Seq<char>,
)
    requires
        is_issued(token),
    ensures
        bearer_of(Some(BEARER@ + token)) == Some(token),
        lookup_by(token_hash(token)).params == seq![storing_of(publisher, token, name).params[1]],
{
    an_issued_token_is_presented_whole(token);
    assert(lookup_by(token_hash(token)).params =~= seq![
        storing_of(publisher, token, name).params[1],
    ]);
}

// --- flags ------------------------------------------------------------------

#[derive(Debug)]
pub struct SetFlag {
    pub value: bool,
}

/// The badge of a workflow, to be written.
pub struct OfficialWrite {
    slug: String,
    value: bool,
}

/// The badge a workflow now has, or no longer has.
#[derive(Debug)]
pub struct OfficialSet {
    pub slug: String,
    pub official: bool,
}

/// Set the `official` badge of a workflow, or take it away.
pub fn set_official(_admin: Admin, slug: String, body: SetFlag) -> (res: OfficialWrite)
    ensures
        res.slug() == slug@,
        res.value() == body.value,
{
    OfficialWrite { slug, value: body.value }
}

impl OfficialWrite {
    pub closed spec fn slug(&self) -> Seq<char> {
        self.slug@
    }

    pub closed spec fn value(&self) -> bool {
        self.value
    }

    pub fn statement(&self) -> (res: Statement)
        ensures
            res@ == bound(
                SET_OFFICIAL@,
                seq![ParamView::Text(self.slug()), ParamView::Bool(self.value())],
            ),
    {
        let res = Statement::new(SET_OFFICIAL).bind(Param::Text(self.slug.clone())).bind(
            Param::Bool(self.value),
        );
        assert(res@.params =~= seq![ParamView::Text(self.slug()), ParamView::Bool(self.value())]);
        res
    }

    pub fn written(self, reply: std::result::Result<u64, DbError>) -> (res: Result<OfficialSet>)
        ensures
            match touched(reply, "workflow"@) {
                Ok(_) => res matches Ok(done) && done.slug@ == self.slug() && done.official
                    == self.value(),
                Err(e) => refused(res, e),
            },
    {
        expect_touched(reply, "workflow")?;
        Ok(OfficialSet { slug: self.slug, official: self.value })
    }
}

/// The block on a publisher, to be written.
pub struct BlockedWrite {
    github_id: i64,
    value: bool,
}

/// The block a publisher is now under, or no longer under.
#[derive(Debug)]
pub struct BlockedSet {
    pub github_id: i64,
    pub blocked: bool,
}

/// Block a publisher, or lift the block.
pub fn set_blocked(_admin: Admin, github_id: i64, body: SetFlag) -> (res: BlockedWrite)
    ensures
        res.github_id() == github_id,
        res.value() == body.value,
{
    BlockedWrite { github_id, value: body.value }
}

impl BlockedWrite {
    pub closed spec fn github_id(&self) -> i64 {
        self.github_id
    }

    pub closed spec fn value(&self) -> bool {
        self.value
    }

    pub fn statement(&self) -> (res: Statement)
        ensures
            res@ == bound(
                SET_BLOCKED@,
                seq![ParamView::BigInt(self.github_id()), ParamView::Bool(self.value())],
            ),
    {
        let res = Statement::new(SET_BLOCKED).bind(Param::BigInt(self.github_id)).bind(
            Param::Bool(self.value),
        );
        assert(res@.params =~= seq![
            ParamView::BigInt(self.github_id()),
            ParamView::Bool(self.value()),
        ]);
        res
    }

    pub fn written(self, reply: std::result::Result<u64, DbError>) -> (res: Result<BlockedSet>)
        ensures
            match touched(reply, "publisher"@) {
                Ok(_) => res matches Ok(done) && done.github_id == self.github_id()
                    && done.blocked == self.value(),
                Err(e) => refused(res, e),
            },
    {
        expect_touched(reply, "publisher")?;
        Ok(BlockedSet { github_id: self.github_id, blocked: self.value })
    }
}

} // verus!
