//! What the operator's requests write.
use crate::auth::{is_drawn, is_issued, Admin};
use crate::db::{DbError, ParamView, Statement};
use crate::deps::{hex_text, sha256};
use crate::error::Result;
use crate::laws::replies::{
    follows, follows_race, follows_touch, is_bad_request, is_statement, lemma_is_statement,
};
use crate::models::IssuedToken;
use crate::routes::admin::{
    issue_token, set_blocked, set_official, BlockedSet, BlockedWrite, IssueBegin, IssueCommit,
    IssuePublisher, IssueToken, IssueWrite, OfficialSet, OfficialWrite, SetFlag,
};
use crate::text::{is_blank, trimming_empties_only_blanks};
use uuid::Uuid;
use vstd::prelude::*;
use vstd::utf8::encode_utf8;

verus! {

/// A token is issued exactly if it is said what it is for.
pub proof fn a_token_needs_a_name(admin: Admin, body: IssueToken, res: Result<IssueBegin>)
    requires
        call_ensures(issue_token, (admin, body), res),
    ensures
        res is Ok <==> !is_blank(body.name@),
        is_blank(body.name@) ==> is_bad_request(res, "name is required"@),
{
    trimming_empties_only_blanks(body.name@);
}

/// A token is issued to the publisher that was sent. Its digest is stored, under
/// that publisher and its name, and the token itself is handed out once, with
/// both.
pub proof fn a_token_is_issued_as_it_was_asked_for(
    admin: Admin,
    body: IssueToken,
    begin: IssueBegin,
    upsert: IssuePublisher,
    st: Statement,
    id: Uuid,
    token: String,
    write: IssueWrite,
    next: Statement,
    count: u64,
    commit: IssueCommit,
    done: IssuedToken,
)
    requires
        call_ensures(issue_token, (admin, body), Ok(begin)),
        call_ensures(IssueBegin::begun, (begin, Ok(())), Ok(upsert)),
        call_ensures(IssuePublisher::statement, (&upsert,), st),
        call_ensures(IssuePublisher::upserted_with, (upsert, Ok(id), token), Ok(write)),
        call_ensures(IssueWrite::statement, (&write,), next),
        call_ensures(IssueWrite::inserted, (write, Ok(count)), Ok(commit)),
        call_ensures(IssueCommit::committed, (commit, Ok(())), Ok(done)),
    ensures
        done.publisher_id == id,
        done.github_login@ == body.github_login@,
        done.name@ == body.name@,
        done.token@ == token@,
        is_statement(
            st,
            "INSERT INTO registry_publishers (github_id, github_login, display_name, avatar_url)
         VALUES ($1, $2, $3, $4)
         ON CONFLICT (github_id) DO UPDATE
            SET github_login = EXCLUDED.github_login,
                display_name = COALESCE(EXCLUDED.display_name, registry_publishers.display_name),
                avatar_url = COALESCE(EXCLUDED.avatar_url, registry_publishers.avatar_url)
         RETURNING id"@,
            seq![
                ParamView::BigInt(body.github_id),
                ParamView::Text(body.github_login@),
                ParamView::MaybeText(body.display_name.deep_view()),
                ParamView::MaybeText(body.avatar_url.deep_view()),
            ],
        ),
        is_statement(
            next,
            "INSERT INTO registry_publisher_tokens (publisher_id, token_hash, name)
         VALUES ($1, $2, $3)"@,
            seq![
                ParamView::Id(id),
                ParamView::Text(hex_text(sha256(encode_utf8(token@)))),
                ParamView::Text(body.name@),
            ],
        ),
{
    lemma_is_statement(
        st,
        "INSERT INTO registry_publishers (github_id, github_login, display_name, avatar_url)
         VALUES ($1, $2, $3, $4)
         ON CONFLICT (github_id) DO UPDATE
            SET github_login = EXCLUDED.github_login,
                display_name = COALESCE(EXCLUDED.display_name, registry_publishers.display_name),
                avatar_url = COALESCE(EXCLUDED.avatar_url, registry_publishers.avatar_url)
         RETURNING id"@,
        seq![
            ParamView::BigInt(body.github_id),
            ParamView::Text(body.github_login@),
            ParamView::MaybeText(body.display_name.deep_view()),
            ParamView::MaybeText(body.avatar_url.deep_view()),
        ],
    );
    lemma_is_statement(
        next,
        "INSERT INTO registry_publisher_tokens (publisher_id, token_hash, name)
         VALUES ($1, $2, $3)"@,
        seq![
            ParamView::Id(id),
            ParamView::Text(hex_text(sha256(encode_utf8(token@)))),
            ParamView::Text(body.name@),
        ],
    );
}

/// A token that is generated on the way is a token like any other: the one that
/// is handed out is the one whose digest is stored.
pub proof fn a_generated_token_is_issued(
    upsert: IssuePublisher,
    body: IssueToken,
    admin: Admin,
    begin: IssueBegin,
    id: Uuid,
    write: IssueWrite,
    next: Statement,
    count: u64,
    commit: IssueCommit,
    done: IssuedToken,
)
    requires
        call_ensures(issue_token, (admin, body), Ok(begin)),
        call_ensures(IssueBegin::begun, (begin, Ok(())), Ok(upsert)),
        call_ensures(IssuePublisher::upserted, (upsert, Ok(id)), Ok(write)),
        call_ensures(IssueWrite::statement, (&write,), next),
        call_ensures(IssueWrite::inserted, (write, Ok(count)), Ok(commit)),
        call_ensures(IssueCommit::committed, (commit, Ok(())), Ok(done)),
    ensures
        is_issued(done.token@),
        is_drawn(done.token@),
        done.publisher_id == id,
        done.github_login@ == body.github_login@,
        done.name@ == body.name@,
        is_statement(
            next,
            "INSERT INTO registry_publisher_tokens (publisher_id, token_hash, name)
         VALUES ($1, $2, $3)"@,
            seq![
                ParamView::Id(id),
                ParamView::Text(hex_text(sha256(encode_utf8(done.token@)))),
                ParamView::Text(body.name@),
            ],
        ),
{
    lemma_is_statement(
        next,
        "INSERT INTO registry_publisher_tokens (publisher_id, token_hash, name)
         VALUES ($1, $2, $3)"@,
        seq![
            ParamView::Id(id),
            ParamView::Text(hex_text(sha256(encode_utf8(done.token@)))),
            ParamView::Text(body.name@),
        ],
    );
}

/// Issuing fails where the database does; a token whose digest is taken is a
/// conflict.
pub proof fn issuing_can_fail(
    begin: IssueBegin,
    begun: std::result::Result<(), DbError>,
    to_upsert: Result<IssuePublisher>,
    upsert: IssuePublisher,
    id: std::result::Result<Uuid, DbError>,
    token: String,
    to_write: Result<IssueWrite>,
    generated: Result<IssueWrite>,
    write: IssueWrite,
    count: std::result::Result<u64, DbError>,
    to_commit: Result<IssueCommit>,
    commit: IssueCommit,
    committed: std::result::Result<(), DbError>,
    res: Result<IssuedToken>,
)
    requires
        call_ensures(IssueBegin::begun, (begin, begun), to_upsert),
        call_ensures(IssuePublisher::upserted_with, (upsert, id, token), to_write),
        call_ensures(IssuePublisher::upserted, (upsert, id), generated),
        call_ensures(IssueWrite::inserted, (write, count), to_commit),
        call_ensures(IssueCommit::committed, (commit, committed), res),
    ensures
        follows(begun, to_upsert),
        follows(id, to_write),
        follows(id, generated),
        follows_race(count, to_commit, "token collision; retry"@),
        follows(committed, res),
{
}

/// The badge of the workflow that was named is set as it was sent, and that is
/// what is answered; a workflow that is not there is not found.
pub proof fn a_badge_is_set_as_it_was_sent(
    admin: Admin,
    slug: String,
    body: SetFlag,
    write: OfficialWrite,
    st: Statement,
    reply: std::result::Result<u64, DbError>,
    res: Result<OfficialSet>,
)
    requires
        call_ensures(set_official, (admin, slug, body), write),
        call_ensures(OfficialWrite::statement, (&write,), st),
        call_ensures(OfficialWrite::written, (write, reply), res),
    ensures
        follows_touch(reply, res, "workflow"@),
        res matches Ok(done) ==> done.slug@ == slug@ && done.official == body.value,
        is_statement(
            st,
            "UPDATE registry_workflows SET official = $2 WHERE slug = $1"@,
            seq![ParamView::Text(slug@), ParamView::Bool(body.value)],
        ),
{
    lemma_is_statement(
        st,
        "UPDATE registry_workflows SET official = $2 WHERE slug = $1"@,
        seq![ParamView::Text(slug@), ParamView::Bool(body.value)],
    );
}

/// The block on the publisher that was named is set as it was sent, and that is
/// what is answered; a publisher that is not there is not found.
pub proof fn a_block_is_set_as_it_was_sent(
    admin: Admin,
    github_id: i64,
    body: SetFlag,
    write: BlockedWrite,
    st: Statement,
    reply: std::result::Result<u64, DbError>,
    res: Result<BlockedSet>,
)
    requires
        call_ensures(set_blocked, (admin, github_id, body), write),
        call_ensures(BlockedWrite::statement, (&write,), st),
        call_ensures(BlockedWrite::written, (write, reply), res),
    ensures
        follows_touch(reply, res, "publisher"@),
        res matches Ok(done) ==> done.github_id == github_id && done.blocked == body.value,
        is_statement(
            st,
            "UPDATE registry_publishers
            SET blocked_at = CASE WHEN $2 THEN now() ELSE NULL END
          WHERE github_id = $1"@,
            seq![ParamView::BigInt(github_id), ParamView::Bool(body.value)],
        ),
{
    lemma_is_statement(
        st,
        "UPDATE registry_publishers
            SET blocked_at = CASE WHEN $2 THEN now() ELSE NULL END
          WHERE github_id = $1"@,
        seq![ParamView::BigInt(github_id), ParamView::Bool(body.value)],
    );
}

} // verus!
