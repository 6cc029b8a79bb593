//! Who a publisher token belongs to, and the name that token publishes under.
//!
//! The harness needs both before it can offer a Publish button. Without the
//! first it cannot say whether a token is live, so the only way to find out
//! would be to publish something and read the error. Without the second it
//! cannot show whose name will appear on the entry -- and a publisher who
//! discovers that only after publishing has already published it.
//!
//! **The token is the identity; the name is a label.** Everything ownership
//! depends on hangs off `publisher.id`, which comes from the token and is not
//! sent by the client. `display_name` is the human-readable half, and a caller
//! may change only its own: the row that is written is the one the presented
//! token resolves to, so no token can rename another publisher.
use crate::auth::Publisher;
use crate::db::{bound, DbError, Param, ParamView, Statement, StatementView};
use crate::error::{answered, expect_answer, refused, verdict, Error, ErrorView, Result};
use crate::models::Me;
use crate::text::{is_blank, trim, trimmed, trimming_empties_only_blanks};
use uuid::Uuid;
use vstd::prelude::*;

verus! {

pub const SELECT_ME: &'static str = "SELECT github_login, display_name, avatar_url
           FROM registry_publishers
          WHERE id = $1";

pub const RENAME_ME: &'static str = "UPDATE registry_publishers SET display_name = $2
          WHERE id = $1
      RETURNING github_login, display_name, avatar_url";

/// Longest display name, in characters.
pub const DISPLAY_NAME_MAX: usize = 60;

/// The statement behind `GET /v1/me`: the publisher this token authenticates
/// as.
pub fn get(publisher: &Publisher) -> (res: Statement)
    ensures
        res@ == bound(SELECT_ME@, seq![ParamView::Id(publisher.id)]),
{
    let res = Statement::new(SELECT_ME).bind(Param::Id(publisher.id));
    assert(res@.params =~= seq![ParamView::Id(publisher.id)]);
    res
}

/// What `GET /v1/me` answers.
pub fn got(reply: std::result::Result<Me, DbError>) -> (res: Result<Me>)
    ensures
        verdict(res) == answered(reply),
{
    expect_answer(reply)
}

#[derive(Debug)]
pub struct UpdateMe {
    /// Blank is not a name. Sending one clears the display name back to the
    /// login rather than publishing under an empty string.
    pub display_name: Option<String>,
}

/// The name that is stored for the one that was sent: without the white space
/// around it, and none at all if nothing is left. One that is too long is
/// refused.
pub open spec fn name_verdict(sent: Option<Seq<char>>) -> std::result::Result<
    Option<Seq<char>>,
    ErrorView,
> {
    match sent {
        Some(sent) => if trimmed(sent).len() > DISPLAY_NAME_MAX {
            Err(ErrorView::BadRequest("display name is too long"@))
        } else if trimmed(sent).len() == 0 {
            Ok(None)
        } else {
            Ok(Some(trimmed(sent)))
        },
        None => Ok(None),
    }
}

/// The statement that stores a display name.
pub open spec fn renaming_of(publisher: Uuid, name: Option<Seq<char>>) -> StatementView {
    bound(RENAME_ME@, seq![ParamView::Id(publisher), ParamView::MaybeText(name)])
}

/// The statement behind `PATCH /v1/me`: set the name this publisher's entries
/// are shown under.
///
/// Harness accounts do not carry a GitHub identity, so the login on the row is
/// whatever the admin recorded when minting the token -- often not what the
/// person would choose to be called in a public library. This lets them fix it
/// once, from the same dialog they publish in, instead of asking an operator to
/// edit the database.
pub fn update(publisher: &Publisher, body: UpdateMe) -> (res: Result<Statement>)
    ensures
        match name_verdict(body.display_name.deep_view()) {
            Ok(name) => res matches Ok(statement) && statement@ == renaming_of(publisher.id, name),
            Err(e) => refused(res, e),
        },
{
    let name = match &body.display_name {
        Some(sent) => {
            let name = trim(sent.as_str());
            if name.unicode_len() > DISPLAY_NAME_MAX {
                return Err(Error::BadRequest("display name is too long".to_owned()));
            }
            // Empty becomes NULL: the read side falls back to the login, so a
            // blank name shows as the login rather than as nothing at all.
            if name.is_empty() {
                None
            } else {
                Some(name.to_owned())
            }
        },
        None => None,
    };
    let res = Statement::new(RENAME_ME).bind(Param::Id(publisher.id)).bind(Param::MaybeText(name));
    assert(res@.params =~= renaming_of(publisher.id, name.deep_view()).params);
    Ok(res)
}

/// What `PATCH /v1/me` answers.
pub fn updated(reply: std::result::Result<Me, DbError>) -> (res: Result<Me>)
    ensures
        verdict(res) == answered(reply),
{
    expect_answer(reply)
}

/// A blank name, like none at all, clears the display name back to the login:
/// no entry is ever published under an empty string.
pub proof fn a_blank_name_clears_the_display_name(sent: Seq<char>)
    requires
        is_blank(sent),
    ensures
        name_verdict(Some(sent)) == name_verdict(None),
        name_verdict(Some(sent)) == Ok::<Option<Seq<char>>, ErrorView>(None),
{
    trimming_empties_only_blanks(sent);
}

/// A name that is stored holds something, has no white space around it, and is
/// short enough.
pub proof fn a_stored_name_is_a_name(sent: Option<Seq<char>>, name: Seq<char>)
    requires
        name_verdict(sent) == Ok::<Option<Seq<char>>, ErrorView>(Some(name)),
    ensures
        1 <= name.len() <= DISPLAY_NAME_MAX,
        !crate::text::is_white_space(name[0]),
        !crate::text::is_white_space(name.last()),
{
    crate::text::trimmed_text_is_tight(sent->0);
}

/// A token renames its own publisher alone: the row that is written is the one
/// of the publisher the token resolves to, and of no other, whatever names are
/// sent. The name is all that is written.
pub proof fn no_token_renames_another_publisher(
    a: Publisher,
    b: Publisher,
    name: Option<Seq<char>>,
    other: Option<Seq<char>>,
)
    requires
        a.id != b.id,
    ensures
        renaming_of(a.id, name).params[0] == ParamView::Id(a.id),
        renaming_of(a.id, name).params[0] != renaming_of(b.id, other).params[0],
        renaming_of(a.id, name).params[1] == ParamView::MaybeText(name),
        RENAME_ME@ == "UPDATE registry_publishers SET "@
            + "display_name = $2"@
            + "\n          WHERE id = $1"@
            + "\n      RETURNING github_login, display_name, avatar_url"@,
{
    reveal_strlit("UPDATE registry_publishers SET ");
    reveal_strlit("display_name = $2");
    reveal_strlit("\n          WHERE id = $1");
    reveal_strlit("\n      RETURNING github_login, display_name, avatar_url");
    reveal_strlit(
        "UPDATE registry_publishers SET display_name = $2
          WHERE id = $1
      RETURNING github_login, display_name, avatar_url",
    );
    assert(RENAME_ME@ =~= "UPDATE registry_publishers SET "@
            + "display_name = $2"@
            + "\n          WHERE id = $1"@
            + "\n      RETURNING github_login, display_name, avatar_url"@);
}

} // verus!
