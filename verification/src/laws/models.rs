//! Which requests are accepted, and what the others are told.
use crate::error::{Error, Result};
use crate::laws::replies::is_bad_request;
use crate::models::{
    bad, each_tag_verdict, is_reserved, shape_verdict, slug_is_reserved, tag_verdict,
    tags_are_accepted_one_by_one, tags_verdict, validate_len, validate_slug, validate_tags,
    validate_yaml, CreateWorkflow, PublishVersion, UpdateWorkflow, RESERVED_SLUGS,
};
use crate::text::{decimal, is_blank, trimming_empties_only_blanks};
use vstd::prelude::*;
use vstd::utf8::encode_utf8;

verus! {

// --- what is acceptable -----------------------------------------------------

/// Lower-case letters, digits and dashes, and nothing else.
pub open spec fn is_plain(s: Seq<char>) -> bool {
    forall|i: int|
        0 <= i < s.len() ==> {
            let c = #[trigger] s[i];
            ('a' <= c && c <= 'z') || ('0' <= c && c <= '9') || c == '-'
        }
}

/// Dashes stand only between other characters, one at a time.
pub open spec fn has_single_inner_dashes(s: Seq<char>) -> bool {
    &&& s[0] != '-'
    &&& s.last() != '-'
    &&& forall|i: int| 0 <= i && i + 1 < s.len() && #[trigger] s[i] == '-' ==> s[i + 1] != '-'
}

/// The names of the workflows that stay bundled with the harness.
pub open spec fn is_bundled(s: Seq<char>) -> bool {
    ||| s == "idea-to-pr"@
    ||| s == "revise-pr"@
    ||| s == "review-pr"@
    ||| s == "merge-pr"@
    ||| s == "judge-ab"@
    ||| s == "architect"@
    ||| s == "linear-epic-supervise"@
}

/// A slug that may be published.
pub open spec fn is_good_slug(s: Seq<char>) -> bool {
    &&& s.len() > 0
    &&& encode_utf8(s).len() <= 64
    &&& is_plain(s)
    &&& has_single_inner_dashes(s)
    &&& !is_bundled(s)
}

/// A text that says something and takes no more than `max` bytes.
pub open spec fn is_good_text(s: Seq<char>, max: int) -> bool {
    !is_blank(s) && encode_utf8(s).len() <= max
}

/// A tag that may be given.
pub open spec fn is_good_tag(s: Seq<char>) -> bool {
    s.len() > 0 && encode_utf8(s).len() <= 32 && is_plain(s)
}

/// Tags that may be given together.
pub open spec fn are_good_tags(tags: Seq<Seq<char>>) -> bool {
    tags.len() <= 10 && forall|i: int| 0 <= i < tags.len() ==> is_good_tag(#[trigger] tags[i])
}

// --- single fields ----------------------------------------------------------

proof fn lemma_bundled(s: Seq<char>)
    ensures
        is_reserved(s) <==> is_bundled(s),
{
    let r = RESERVED_SLUGS@;
    assert(r[0]@ == "idea-to-pr"@);
    assert(r[1]@ == "revise-pr"@);
    assert(r[2]@ == "review-pr"@);
    assert(r[3]@ == "merge-pr"@);
    assert(r[4]@ == "judge-ab"@);
    assert(r[5]@ == "architect"@);
    assert(r[6]@ == "linear-epic-supervise"@);
    if is_reserved(s) {
        let i = choose|i: int| 0 <= i < r.len() && (#[trigger] r[i])@ == s;
        assert(i == 0 || i == 1 || i == 2 || i == 3 || i == 4 || i == 5 || i == 6);
    }
}

/// The reserved slugs are the names that stay bundled, and no others.
pub proof fn the_bundled_names_are_reserved(slug: &str, res: bool)
    requires
        call_ensures(slug_is_reserved, (slug,), res),
    ensures
        res <==> is_bundled(slug@),
{
    lemma_bundled(slug@);
}

proof fn lemma_slug(s: Seq<char>)
    ensures
        shape_verdict(s) is Ok && !is_reserved(s) <==> is_good_slug(s),
        crate::models::all_name_chars(s) <==> is_plain(s),
        s.len() > 0 ==> (s[0] == '-' || s.last() == '-' || crate::models::has_double_dash(s)
            <==> !has_single_inner_dashes(s)),
{
    lemma_bundled(s);
    if crate::models::all_name_chars(s) {
        assert forall|i: int| 0 <= i < s.len() implies {
            let c = #[trigger] s[i];
            ('a' <= c && c <= 'z') || ('0' <= c && c <= '9') || c == '-'
        } by {
            assert(crate::models::is_name_char(s[i]));
        }
    }
    if is_plain(s) {
        assert forall|i: int| 0 <= i < s.len() implies crate::models::is_name_char(
            #[trigger] s[i],
        ) by {}
    }
    if crate::models::has_double_dash(s) {
        let i = choose|i: int| 0 <= i < s.len() - 1 && #[trigger] s[i] == '-' && s[i + 1] == '-';
        assert(s[i] == '-');
    }
}

/// A slug is accepted exactly if it may be published. Otherwise it is told the
/// first thing wrong with it: its length, then its characters, then its
/// dashes, and only then that the name is taken by the harness.
pub proof fn a_slug_is_judged(slug: &str, res: Result<()>)
    requires
        call_ensures(validate_slug, (slug,), res),
    ensures
        res is Ok <==> is_good_slug(slug@),
        slug@.len() == 0 || encode_utf8(slug@).len() > 64 ==> is_bad_request(
            res,
            "slug must be 1-64 characters"@,
        ),
        0 < slug@.len() && encode_utf8(slug@).len() <= 64 ==> {
            &&& !is_plain(slug@) ==> is_bad_request(
                res,
                "slug may contain only lowercase letters, digits and dashes"@,
            )
            &&& is_plain(slug@) && !has_single_inner_dashes(slug@) ==> is_bad_request(
                res,
                "slug may not start or end with a dash, or contain a double dash"@,
            )
            &&& is_plain(slug@) && has_single_inner_dashes(slug@) && is_bundled(slug@)
                ==> is_bad_request(
                res,
                "`"@ + slug@
                    + "` is the name of a workflow the harness ships, and installing one of that name would silently replace it"@,
            )
        },
{
    lemma_slug(slug@);
    lemma_bundled(slug@);
}

/// A text field is accepted exactly if it says something and is short enough;
/// otherwise its name and what is wrong with it are told.
pub proof fn a_text_field_is_judged(
    field: &'static str,
    value: &str,
    max: usize,
    written: String,
    res: Result<()>,
)
    requires
        call_ensures(validate_len, (field, value, max), res),
        call_ensures(crate::text::to_decimal, (max,), written),
    ensures
        res is Ok <==> is_good_text(value@, max as int),
        is_blank(value@) ==> is_bad_request(res, field@ + " is required"@),
        !is_blank(value@) && encode_utf8(value@).len() > max ==> is_bad_request(
            res,
            field@ + " must be at most "@ + written@ + " characters"@,
        ),
{
    trimming_empties_only_blanks(value@);
}

/// A document is accepted exactly if it says something and takes no more than
/// the configured number of bytes. One that says nothing is a bad request, and
/// one that is too long is too large.
pub proof fn a_document_is_judged(yaml: &str, max: usize, res: Result<()>)
    requires
        call_ensures(validate_yaml, (yaml, max), res),
    ensures
        res is Ok <==> is_good_text(yaml@, max as int),
        is_blank(yaml@) ==> is_bad_request(res, "yaml is required"@),
        !is_blank(yaml@) && encode_utf8(yaml@).len() > max ==> (res matches Err(e) && e
            == Error::TooLarge),
{
    trimming_empties_only_blanks(yaml@);
}

proof fn lemma_tag(s: Seq<char>)
    ensures
        tag_verdict(s) is Ok <==> is_good_tag(s),
        tag_verdict(s) is Err ==> tag_verdict(s) == (if s.len() == 0 || encode_utf8(s).len() > 32 {
            bad("each tag must be 1-32 characters"@)
        } else {
            bad("tags may contain only lowercase letters, digits and dashes"@)
        }),
{
    lemma_slug(s);
}

proof fn lemma_tags(tags: Seq<Seq<char>>)
    ensures
        tags_verdict(tags) is Ok <==> are_good_tags(tags),
{
    tags_are_accepted_one_by_one(tags);
    assert forall|i: int| 0 <= i < tags.len() implies (tag_verdict(#[trigger] tags[i]) is Ok
        <==> is_good_tag(tags[i])) by {
        lemma_tag(tags[i]);
    }
}

proof fn lemma_first_bad_tag(tags: Seq<Seq<char>>, i: int)
    requires
        0 <= i < tags.len(),
        forall|j: int| 0 <= j < i ==> is_good_tag(#[trigger] tags[j]),
        !is_good_tag(tags[i]),
    ensures
        each_tag_verdict(tags) == tag_verdict(tags[i]),
    decreases tags.len(),
{
    let before = tags.drop_last();
    if i == tags.len() - 1 {
        if before.len() > 0 {
            assert forall|j: int| 0 <= j < before.len() implies tag_verdict(
                #[trigger] before[j],
            ) is Ok by {
                assert(before[j] == tags[j]);
                lemma_tag(tags[j]);
            }
        }
        lemma_all_good(before);
    } else {
        assert forall|j: int| 0 <= j < i implies is_good_tag(#[trigger] before[j]) by {
            assert(before[j] == tags[j]);
        }
        lemma_first_bad_tag(before, i);
        lemma_tag(tags[i]);
    }
}

proof fn lemma_all_good(tags: Seq<Seq<char>>)
    requires
        forall|j: int| 0 <= j < tags.len() ==> tag_verdict(#[trigger] tags[j]) is Ok,
    ensures
        each_tag_verdict(tags) is Ok,
    decreases tags.len(),
{
    if tags.len() > 0 {
        let before = tags.drop_last();
        assert forall|j: int| 0 <= j < before.len() implies tag_verdict(#[trigger] before[j]) is Ok by {
            assert(before[j] == tags[j]);
        }
        lemma_all_good(before);
        assert(tags.last() == tags[tags.len() - 1]);
    }
}

/// Tags are accepted exactly if there are at most ten and each may be given.
/// Otherwise too many are told first, and then the first tag that may not.
pub proof fn tags_are_judged(tags: &[String], i: int, res: Result<()>)
    requires
        call_ensures(validate_tags, (tags,), res),
    ensures
        res is Ok <==> are_good_tags(tags.deep_view()),
        tags@.len() > 10 ==> is_bad_request(res, "at most 10 tags"@),
        tags@.len() <= 10 && 0 <= i < tags@.len() && !is_good_tag(tags.deep_view()[i]) && (forall|
            j: int,
        |
            0 <= j < i ==> is_good_tag(#[trigger] tags.deep_view()[j])) ==> is_bad_request(
            res,
            if tags.deep_view()[i].len() == 0 || encode_utf8(tags.deep_view()[i]).len() > 32 {
                "each tag must be 1-32 characters"@
            } else {
                "tags may contain only lowercase letters, digits and dashes"@
            },
        ),
{
    let all = tags.deep_view();
    lemma_tags(all);
    if all.len() <= 10 && 0 <= i < all.len() && !is_good_tag(all[i]) && (forall|j: int|
        0 <= j < i ==> is_good_tag(#[trigger] all[j])) {
        lemma_first_bad_tag(all, i);
        lemma_tag(all[i]);
    }
}

// --- requests ---------------------------------------------------------------

proof fn lemma_decimals()
    ensures
        decimal(120) == "120"@,
        decimal(2_000) == "2000"@,
        decimal(4_000) == "4000"@,
{
    reveal_with_fuel(decimal, 5);
    reveal_strlit("120");
    reveal_strlit("2000");
    reveal_strlit("4000");
    assert(decimal(120) =~= "120"@);
    assert(decimal(2_000) =~= "2000"@);
    assert(decimal(4_000) =~= "4000"@);
}

/// What is told of a field that is refused: that it says nothing, or that it
/// is longer than its bound.
pub open spec fn tells_of_field<T>(
    res: Result<T>,
    field: Seq<char>,
    value: Seq<char>,
    bound: Seq<char>,
) -> bool {
    is_bad_request(
        res,
        if is_blank(value) {
            field + " is required"@
        } else {
            field + " must be at most "@ + bound + " characters"@
        },
    )
}

/// A new workflow is accepted exactly if its slug may be published, its title
/// and description say something within 120 and 2000 bytes, its tags may be
/// given, its document says something within the configured bytes, and its
/// changelog, if there is one, says something within 4000. Otherwise it is told
/// of the first of these that fails.
pub proof fn a_new_workflow_is_judged(
    body: CreateWorkflow,
    max_yaml: usize,
    res: Result<()>,
    slug: &str,
    of_slug: Result<()>,
    tags: &[String],
    of_tags: Result<()>,
)
    requires
        call_ensures(CreateWorkflow::validate, (&body, max_yaml), res),
        slug@ == body.slug@,
        call_ensures(validate_slug, (slug,), of_slug),
        tags@ == body.tags@,
        call_ensures(validate_tags, (tags,), of_tags),
    ensures
        res is Ok <==> {
            &&& is_good_slug(body.slug@)
            &&& is_good_text(body.title@, 120)
            &&& is_good_text(body.description@, 2_000)
            &&& are_good_tags(body.tags.deep_view())
            &&& is_good_text(body.yaml@, max_yaml as int)
            &&& body.changelog matches Some(c) ==> is_good_text(c@, 4_000)
        },
        !is_good_slug(body.slug@) ==> (res matches Err(e) && of_slug matches Err(x) && e@ == x@),
        is_good_slug(body.slug@) && !is_good_text(body.title@, 120) ==> tells_of_field(
            res,
            "title"@,
            body.title@,
            "120"@,
        ),
        is_good_slug(body.slug@) && is_good_text(body.title@, 120) ==> {
            &&& !is_good_text(body.description@, 2_000) ==> tells_of_field(
                res,
                "description"@,
                body.description@,
                "2000"@,
            )
            &&& is_good_text(body.description@, 2_000) ==> {
                &&& !are_good_tags(body.tags.deep_view()) ==> (res matches Err(e) && of_tags matches Err(
                    x,
                ) && e@ == x@)
                &&& are_good_tags(body.tags.deep_view()) ==> {
                    &&& is_blank(body.yaml@) ==> is_bad_request(res, "yaml is required"@)
                    &&& !is_blank(body.yaml@) && encode_utf8(body.yaml@).len() > max_yaml ==> (
                    res matches Err(e) && e == Error::TooLarge)
                    &&& is_good_text(body.yaml@, max_yaml as int) && body.changelog is Some
                        && !is_good_text(body.changelog->0@, 4_000) ==> tells_of_field(
                        res,
                        "changelog"@,
                        body.changelog->0@,
                        "4000"@,
                    )
                }
            }
        },
{
    lemma_slug(body.slug@);
    lemma_tags(body.tags.deep_view());
    lemma_decimals();
    assert(tags.deep_view() =~= body.tags.deep_view());
    trimming_empties_only_blanks(body.title@);
    trimming_empties_only_blanks(body.description@);
    trimming_empties_only_blanks(body.yaml@);
    if body.changelog is Some {
        trimming_empties_only_blanks(body.changelog->0@);
    }
}

/// A new version is accepted exactly if its document says something within the
/// configured bytes and its changelog, if there is one, says something within
/// 4000. Without a changelog the document alone decides.
pub proof fn a_new_version_is_judged(body: PublishVersion, max_yaml: usize, res: Result<()>)
    requires
        call_ensures(PublishVersion::validate, (&body, max_yaml), res),
    ensures
        res is Ok <==> is_good_text(body.yaml@, max_yaml as int) && (body.changelog matches Some(c)
            ==> is_good_text(c@, 4_000)),
        body.changelog is None ==> (res is Ok <==> is_good_text(body.yaml@, max_yaml as int)),
        is_blank(body.yaml@) ==> is_bad_request(res, "yaml is required"@),
        !is_blank(body.yaml@) && encode_utf8(body.yaml@).len() > max_yaml ==> (res matches Err(e)
            && e == Error::TooLarge),
        is_good_text(body.yaml@, max_yaml as int) && body.changelog is Some && !is_good_text(
            body.changelog->0@,
            4_000,
        ) ==> tells_of_field(res, "changelog"@, body.changelog->0@, "4000"@),
{
    lemma_decimals();
    trimming_empties_only_blanks(body.yaml@);
    if body.changelog is Some {
        trimming_empties_only_blanks(body.changelog->0@);
    }
}

/// An amendment is accepted exactly if at least one of title, description and
/// tags is there, and each one that is there is acceptable. Otherwise it is
/// told of the first that is not, or that there is nothing to update.
pub proof fn an_amendment_is_judged(
    body: UpdateWorkflow,
    res: Result<()>,
    tags: &[String],
    of_tags: Result<()>,
)
    requires
        call_ensures(UpdateWorkflow::validate, (&body,), res),
        body.tags matches Some(t) ==> tags@ == t@,
        call_ensures(validate_tags, (tags,), of_tags),
    ensures
        res is Ok <==> {
            &&& body.title is Some || body.description is Some || body.tags is Some
            &&& body.title matches Some(t) ==> is_good_text(t@, 120)
            &&& body.description matches Some(d) ==> is_good_text(d@, 2_000)
            &&& body.tags matches Some(t) ==> are_good_tags(t.deep_view())
        },
        body.title is None && body.description is None && body.tags is None ==> is_bad_request(
            res,
            "nothing to update"@,
        ),
        body.title is Some && !is_good_text(body.title->0@, 120) ==> tells_of_field(
            res,
            "title"@,
            body.title->0@,
            "120"@,
        ),
        (body.title is None || is_good_text(body.title->0@, 120)) && body.description is Some
            && !is_good_text(body.description->0@, 2_000) ==> tells_of_field(
            res,
            "description"@,
            body.description->0@,
            "2000"@,
        ),
        (body.title is None || is_good_text(body.title->0@, 120)) && (body.description is None
            || is_good_text(body.description->0@, 2_000)) && body.tags is Some && !are_good_tags(
            body.tags->0.deep_view(),
        ) ==> (res matches Err(e) && of_tags matches Err(x) && e@ == x@),
{
    lemma_decimals();
    if body.title is Some {
        trimming_empties_only_blanks(body.title->0@);
    }
    if body.description is Some {
        trimming_empties_only_blanks(body.description->0@);
    }
    if body.tags is Some {
        assert(tags.deep_view() =~= body.tags->0.deep_view());
        lemma_tags(body.tags->0.deep_view());
    }
}

} // verus!
