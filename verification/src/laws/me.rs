//! Whose row a publisher reads and renames.
use crate::auth::Publisher;
use crate::db::{DbError, ParamView, Statement};
use crate::error::{Error, Result};
use crate::laws::replies::{follows, is_bad_request, is_statement, lemma_is_statement};
use crate::laws::text::{
    is_trimmed, trimming_leaves_one_text, trimming_takes_off_white_space_and_nothing_else,
};
use crate::models::Me;
use crate::routes::me::{get, got, update, updated, UpdateMe};
use crate::text::trimmed;
use vstd::prelude::*;

verus! {

/// A publisher reads its own row, as it came.
pub proof fn a_publisher_reads_its_own_row(
    publisher: Publisher,
    st: Statement,
    reply: std::result::Result<Me, DbError>,
    res: Result<Me>,
    answer: Result<Me>,
)
    requires
        call_ensures(get, (&publisher,), st),
        call_ensures(got, (reply,), res),
        call_ensures(updated, (reply,), answer),
    ensures
        follows(reply, res),
        follows(reply, answer),
        reply matches Ok(me) ==> res == Ok::<Me, Error>(me) && answer == Ok::<Me, Error>(me),
        is_statement(
            st,
            "SELECT github_login, display_name, avatar_url
           FROM registry_publishers
          WHERE id = $1"@,
            seq![ParamView::Id(publisher.id)],
        ),
{
    lemma_is_statement(
        st,
        "SELECT github_login, display_name, avatar_url
           FROM registry_publishers
          WHERE id = $1"@,
        seq![ParamView::Id(publisher.id)],
    );
}

/// A publisher's own row takes the name that was sent, without the white space
/// around it, and none if nothing is left of it or none was sent. A name of more
/// than sixty characters is refused, and no other.
pub proof fn a_publisher_renames_its_own_row(
    publisher: Publisher,
    body: UpdateMe,
    name: Seq<char>,
    res: Result<Statement>,
)
    requires
        call_ensures(update, (&publisher, body), res),
        body.display_name matches Some(sent) ==> is_trimmed(sent@, name),
    ensures
        res is Ok <==> !(body.display_name is Some && name.len() > 60),
        res is Err ==> is_bad_request(res, "display name is too long"@),
        res matches Ok(st) ==> is_statement(
            st,
            "UPDATE registry_publishers SET display_name = $2
          WHERE id = $1
      RETURNING github_login, display_name, avatar_url"@,
            seq![
                ParamView::Id(publisher.id),
                ParamView::MaybeText(
                    if body.display_name is Some && name.len() > 0 {
                        Some(name)
                    } else {
                        None
                    },
                ),
            ],
        ),
{
    if let Some(sent) = body.display_name {
        trimming_takes_off_white_space_and_nothing_else(sent@);
        trimming_leaves_one_text(sent@, trimmed(sent@), name);
    }
    if let Ok(st) = res {
        let stored = if body.display_name is Some && name.len() > 0 {
            Some(name)
        } else {
            None
        };
        lemma_is_statement(
            st,
            "UPDATE registry_publishers SET display_name = $2
          WHERE id = $1
      RETURNING github_login, display_name, avatar_url"@,
            seq![ParamView::Id(publisher.id), ParamView::MaybeText(stored)],
        );
    }
}

} // verus!
