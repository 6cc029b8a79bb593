//! Wire types and the validation that guards the schema's invariants.
use crate::error::{verdict, Error, ErrorView, Result};
use crate::text::{
    ascii_lower, blank, chars_of, decimal, is_blank, str_eq, to_decimal, trimmed,
    trimming_empties_only_blanks,
};
use uuid::Uuid;
use vstd::prelude::*;
use vstd::utf8::encode_utf8;

verus! {

/// Upper bound on a slug. Long enough for a descriptive name, short enough
/// that it cannot be used to push other columns out of a listing.
pub const SLUG_MAX: usize = 64;

pub const TITLE_MAX: usize = 120;

pub const DESCRIPTION_MAX: usize = 2_000;

pub const TAG_MAX: usize = 32;

pub const TAGS_MAX: usize = 10;

pub const CHANGELOG_MAX: usize = 4_000;

/// Slugs nobody may publish, because the harness ships a workflow of each name.
///
/// A harness resolves `.harness/workflows/<name>.yaml` **before** its bundled
/// defaults, so an installed workflow of the same name does not sit beside the
/// built-in one: it silently replaces it. That is the one collision worth
/// refusing outright rather than renaming around, and refusing it here means
/// the bad name never exists to be installed.
///
/// **Only the names that stay bundled.** `geo-audit`, `bc-idea-to-pr` and
/// `review-area` are moving out of the harness and into the library, so they
/// have to remain publishable.
///
/// `linear-epic-supervise` is here for a stronger reason than the rest: the
/// harness dispatches to it by name from its epic router, so shadowing it does
/// not degrade a workflow, it breaks a code path.
pub const RESERVED_SLUGS: [&'static str; 7] = [
    "idea-to-pr",
    "revise-pr",
    "review-pr",
    "merge-pr",
    "judge-ab",
    "architect",
    "linear-epic-supervise",
];

/// The outcome of a check that either passes or refuses.
pub type Verdict = std::result::Result<(), ErrorView>;

/// Two checks in order: the second counts only if the first passes.
pub open spec fn both(first: Verdict, second: Verdict) -> Verdict {
    if first is Err {
        first
    } else {
        second
    }
}

/// The refusal of a request, with the reason.
pub open spec fn bad(message: Seq<char>) -> Verdict {
    Err(ErrorView::BadRequest(message))
}

fn refuse(message: &str) -> (res: Result<()>)
    ensures
        verdict(res) == bad(message@),
{
    Err(Error::BadRequest(message.to_owned()))
}

// --- slugs ------------------------------------------------------------------

/// A slug the harness ships and must keep.
pub open spec fn is_reserved(slug: Seq<char>) -> bool {
    exists|i: int| 0 <= i < RESERVED_SLUGS@.len() && (#[trigger] RESERVED_SLUGS@[i])@ == slug
}

/// Whether a slug is one the harness ships and must keep.
pub fn slug_is_reserved(slug: &str) -> (res: bool)
    ensures
        res == is_reserved(slug@),
{
    let reserved: [&'static str; 7] = RESERVED_SLUGS;
    let mut i: usize = 0;
    while i < 7
        invariant
            i <= 7,
            reserved == RESERVED_SLUGS,
            forall|j: int| 0 <= j < i ==> (#[trigger] RESERVED_SLUGS@[j])@ != slug@,
        decreases 7 - i,
    {
        if str_eq(reserved[i], slug) {
            assert(RESERVED_SLUGS@[i as int]@ == slug@);
            return true;
        }
        i = i + 1;
    }
    false
}

/// A character a slug or a tag may hold.
pub open spec fn is_name_char(c: char) -> bool {
    ('a' <= c && c <= 'z') || ('0' <= c && c <= '9') || c == '-'
}

/// Lower-case letters, digits and dashes only.
pub open spec fn all_name_chars(s: Seq<char>) -> bool {
    forall|i: int| 0 <= i < s.len() ==> is_name_char(#[trigger] s[i])
}

/// Two dashes in a row somewhere.
pub open spec fn has_double_dash(s: Seq<char>) -> bool {
    exists|i: int| 0 <= i < s.len() - 1 && #[trigger] s[i] == '-' && s[i + 1] == '-'
}

/// What the shape of a slug is refused for, if it is.
pub open spec fn shape_verdict(slug: Seq<char>) -> Verdict {
    if slug.len() == 0 || encode_utf8(slug).len() > SLUG_MAX {
        bad("slug must be 1-64 characters"@)
    } else if !all_name_chars(slug) {
        bad("slug may contain only lowercase letters, digits and dashes"@)
    } else if slug[0] == '-' || slug.last() == '-' || has_double_dash(slug) {
        bad("slug may not start or end with a dash, or contain a double dash"@)
    } else {
        Ok(())
    }
}

/// What a slug is refused for, if it is: its shape, or else that the harness
/// ships a workflow of that name.
pub open spec fn slug_verdict(slug: Seq<char>) -> Verdict {
    both(
        shape_verdict(slug),
        if is_reserved(slug) {
            bad(
                "`"@ + slug
                    + "` is the name of a workflow the harness ships, and installing one of that name would silently replace it"@,
            )
        } else {
            Ok(())
        },
    )
}

fn name_chars_only(chars: &Vec<char>) -> (res: bool)
    ensures
        res == all_name_chars(chars@),
{
    let mut i: usize = 0;
    while i < chars.len()
        invariant
            i <= chars@.len(),
            forall|j: int| 0 <= j < i ==> is_name_char(#[trigger] chars@[j]),
        decreases chars@.len() - i,
    {
        let c = chars[i];
        if !(('a' <= c && c <= 'z') || ('0' <= c && c <= '9') || c == '-') {
            assert(!is_name_char(chars@[i as int]));
            return false;
        }
        i = i + 1;
    }
    true
}

fn double_dash(chars: &Vec<char>) -> (res: bool)
    ensures
        res == has_double_dash(chars@),
{
    let mut i: usize = 1;
    while i < chars.len()
        invariant
            1 <= i,
            chars@.len() > 0 ==> i <= chars@.len(),
            forall|j: int| 0 <= j < i - 1 ==> !(#[trigger] chars@[j] == '-' && chars@[j + 1] == '-'),
        decreases chars@.len() - i,
    {
        if chars[i - 1] == '-' && chars[i] == '-' {
            assert(chars@[i - 1] == '-' && chars@[i - 1 + 1] == '-');
            return true;
        }
        i = i + 1;
    }
    false
}

/// Validate a slug.
///
/// Lowercase, digits and single dashes only. The schema notes that a slug must
/// not be able to shadow a bundled workflow written to
/// `.harness/workflows/<name>.yaml`, so this also refuses anything that could
/// escape that directory or collide with a path: no dots, no slashes, no
/// leading or trailing dash.
pub fn validate_slug(slug: &str) -> (res: Result<()>)
    ensures
        verdict(res) == slug_verdict(slug@),
{
    if slug.is_empty() || slug.as_bytes().len() > SLUG_MAX {
        return refuse("slug must be 1-64 characters");
    }
    let chars = chars_of(slug);
    if !name_chars_only(&chars) {
        return refuse("slug may contain only lowercase letters, digits and dashes");
    }
    if chars[0] == '-' || chars[chars.len() - 1] == '-' || double_dash(&chars) {
        return refuse("slug may not start or end with a dash, or contain a double dash");
    }
    // Last, so the shape of a slug is reported before its availability: told
    // both at once, "Idea-To-PR" would be refused as reserved and the author
    // would fix the wrong thing.
    if slug_is_reserved(slug) {
        return Err(
            Error::BadRequest(
                "`".to_owned().concat(slug).concat(
                    "` is the name of a workflow the harness ships, and installing one of that name would silently replace it",
                ),
            ),
        );
    }
    Ok(())
}

/// A slug that is accepted cannot leave the directory it is written to, hides
/// no bundled workflow, and is neither empty nor long.
pub proof fn an_accepted_slug_is_a_plain_name(slug: Seq<char>)
    requires
        slug_verdict(slug) is Ok,
    ensures
        1 <= slug.len() <= SLUG_MAX,
        !slug.contains('.') && !slug.contains('/') && !slug.contains('\\'),
        slug[0] != '-' && slug.last() != '-',
        forall|i: int| 0 <= i < slug.len() - 1 ==> !(#[trigger] slug[i] == '-' && slug[i + 1] == '-'),
        !is_reserved(slug),
{
    assert(vstd::utf8::is_ascii_chars(slug));
    vstd::utf8::is_ascii_chars_encode_utf8(slug);
    assert forall|c: char| slug.contains(c) implies is_name_char(c) by {
        let i = choose|i: int| 0 <= i < slug.len() && slug[i] == c;
        assert(is_name_char(slug[i]));
    }
}

/// Every name of that shape is accepted, unless the harness ships it.
pub proof fn a_plain_name_is_an_accepted_slug(slug: Seq<char>)
    requires
        1 <= slug.len() <= SLUG_MAX,
        all_name_chars(slug),
        slug[0] != '-' && slug.last() != '-',
        !has_double_dash(slug),
        !is_reserved(slug),
    ensures
        slug_verdict(slug) is Ok,
{
    assert(vstd::utf8::is_ascii_chars(slug));
    vstd::utf8::is_ascii_chars_encode_utf8(slug);
}

/// Upper case is refused rather than folded: no two accepted slugs differ in
/// letter case alone.
pub proof fn accepted_slugs_do_not_differ_in_case(a: Seq<char>, b: Seq<char>)
    requires
        slug_verdict(a) is Ok,
        slug_verdict(b) is Ok,
        a.map_values(|c: char| ascii_lower(c)) == b.map_values(|c: char| ascii_lower(c)),
    ensures
        a == b,
{
    let x = a.map_values(|c: char| ascii_lower(c));
    let y = b.map_values(|c: char| ascii_lower(c));
    assert(x.len() == y.len());
    assert forall|i: int| 0 <= i < a.len() implies a[i] == b[i] by {
        assert(is_name_char(a[i]));
        assert(is_name_char(b[i]));
        assert(x[i] == a[i]);
        assert(y[i] == b[i]);
    }
    assert(a =~= b);
}

/// The shape of a slug is reported before its availability: a slug of the
/// wrong shape is refused for its shape, whatever the harness ships.
pub proof fn a_misshapen_slug_is_refused_for_its_shape(slug: Seq<char>)
    requires
        shape_verdict(slug) is Err,
    ensures
        slug_verdict(slug) == shape_verdict(slug),
{
}

// --- lengths ----------------------------------------------------------------

/// What a text field is refused for, if it is: that it holds nothing but white
/// space, or that it takes more than `max` bytes.
pub open spec fn len_verdict(field: Seq<char>, value: Seq<char>, max: usize) -> Verdict {
    if trimmed(value).len() == 0 {
        bad(field + " is required"@)
    } else if encode_utf8(value).len() > max {
        bad(field + " must be at most "@ + decimal(max as nat) + " characters"@)
    } else {
        Ok(())
    }
}

/// A field that is only checked when it is there.
pub open spec fn optional_len_verdict(
    field: Seq<char>,
    value: Option<Seq<char>>,
    max: usize,
) -> Verdict {
    match value {
        Some(v) => len_verdict(field, v, max),
        None => Ok(()),
    }
}

pub fn validate_len(field: &'static str, value: &str, max: usize) -> (res: Result<()>)
    ensures
        verdict(res) == len_verdict(field@, value@, max),
{
    if blank(value) {
        return Err(Error::BadRequest(field.to_owned().concat(" is required")));
    }
    if value.as_bytes().len() > max {
        return Err(
            Error::BadRequest(
                field.to_owned().concat(" must be at most ").concat(to_decimal(max).as_str()).concat(
                    " characters",
                ),
            ),
        );
    }
    Ok(())
}

fn validate_optional_len(field: &'static str, value: &Option<String>, max: usize) -> (res: Result<
    (),
>)
    ensures
        verdict(res) == optional_len_verdict(field@, value.deep_view(), max),
{
    match value {
        Some(v) => validate_len(field, v.as_str(), max),
        None => Ok(()),
    }
}

/// What a document is refused for, if it is: that it holds nothing but white
/// space, or that it is too large, which a client deciding whether to retry
/// has to tell apart.
pub open spec fn yaml_verdict(yaml: Seq<char>, max: usize) -> Verdict {
    if trimmed(yaml).len() == 0 {
        bad("yaml is required"@)
    } else if encode_utf8(yaml).len() > max {
        Err(ErrorView::TooLarge)
    } else {
        Ok(())
    }
}

pub fn validate_yaml(yaml: &str, max: usize) -> (res: Result<()>)
    ensures
        verdict(res) == yaml_verdict(yaml@, max),
{
    if blank(yaml) {
        return refuse("yaml is required");
    }
    if yaml.as_bytes().len() > max {
        return Err(Error::TooLarge);
    }
    Ok(())
}

// --- tags -------------------------------------------------------------------

/// What one tag is refused for, if it is.
pub open spec fn tag_verdict(tag: Seq<char>) -> Verdict {
    if tag.len() == 0 || encode_utf8(tag).len() > TAG_MAX {
        bad("each tag must be 1-32 characters"@)
    } else if !all_name_chars(tag) {
        bad("tags may contain only lowercase letters, digits and dashes"@)
    } else {
        Ok(())
    }
}

/// What the first tag that is refused is refused for.
pub open spec fn each_tag_verdict(tags: Seq<Seq<char>>) -> Verdict
    decreases tags.len(),
{
    if tags.len() == 0 {
        Ok(())
    } else {
        both(each_tag_verdict(tags.drop_last()), tag_verdict(tags.last()))
    }
}

/// What a list of tags is refused for, if it is: that there are too many, or
/// else the first tag that is refused.
pub open spec fn tags_verdict(tags: Seq<Seq<char>>) -> Verdict {
    if tags.len() > TAGS_MAX {
        bad("at most 10 tags"@)
    } else {
        each_tag_verdict(tags)
    }
}

proof fn lemma_a_refused_tag_decides(tags: Seq<Seq<char>>, i: int)
    requires
        0 <= i < tags.len(),
        each_tag_verdict(tags.take(i)) is Ok,
        tag_verdict(tags[i]) is Err,
    ensures
        each_tag_verdict(tags) == tag_verdict(tags[i]),
    decreases tags.len(),
{
    if i == tags.len() - 1 {
        assert(tags.take(i) =~= tags.drop_last());
    } else {
        assert(tags.drop_last().take(i) =~= tags.take(i));
        lemma_a_refused_tag_decides(tags.drop_last(), i);
    }
}

pub fn validate_tags(tags: &[String]) -> (res: Result<()>)
    ensures
        verdict(res) == tags_verdict(tags.deep_view()),
{
    if tags.len() > TAGS_MAX {
        return refuse("at most 10 tags");
    }
    let ghost all = tags.deep_view();
    let mut i: usize = 0;
    assert(all.take(0) =~= Seq::<Seq<char>>::empty());
    while i < tags.len()
        invariant
            i <= tags@.len(),
            all == tags.deep_view(),
            all.len() <= TAGS_MAX,
            each_tag_verdict(all.take(i as int)) is Ok,
        decreases tags@.len() - i,
    {
        let tag = tags[i].as_str();
        assert(tag@ == all[i as int]);
        if tag.is_empty() || tag.as_bytes().len() > TAG_MAX {
            proof {
                lemma_a_refused_tag_decides(all, i as int);
            }
            return refuse("each tag must be 1-32 characters");
        }
        if !name_chars_only(&chars_of(tag)) {
            proof {
                lemma_a_refused_tag_decides(all, i as int);
            }
            return refuse("tags may contain only lowercase letters, digits and dashes");
        }
        assert(all.take(i + 1).drop_last() =~= all.take(i as int));
        i = i + 1;
    }
    assert(all.take(i as int) =~= all);
    Ok(())
}

/// A list of tags is accepted exactly when it is short enough and every tag in
/// it is accepted.
pub proof fn tags_are_accepted_one_by_one(tags: Seq<Seq<char>>)
    ensures
        tags_verdict(tags) is Ok <==> tags.len() <= TAGS_MAX && forall|i: int|
            0 <= i < tags.len() ==> tag_verdict(#[trigger] tags[i]) is Ok,
{
    lemma_each_tag(tags);
}

proof fn lemma_each_tag(tags: Seq<Seq<char>>)
    ensures
        each_tag_verdict(tags) is Ok <==> forall|i: int|
            0 <= i < tags.len() ==> tag_verdict(#[trigger] tags[i]) is Ok,
    decreases tags.len(),
{
    if tags.len() > 0 {
        let before = tags.drop_last();
        lemma_each_tag(before);
        if each_tag_verdict(tags) is Ok {
            assert forall|i: int| 0 <= i < tags.len() implies tag_verdict(#[trigger] tags[i]) is Ok by {
                if i < before.len() {
                    assert(before[i] == tags[i]);
                }
            }
        }
        if forall|i: int| 0 <= i < tags.len() ==> tag_verdict(#[trigger] tags[i]) is Ok {
            assert forall|i: int| 0 <= i < before.len() implies tag_verdict(#[trigger] before[i]) is Ok by {
                assert(before[i] == tags[i]);
            }
            assert(tag_verdict(tags[tags.len() - 1]) is Ok);
        }
    }
}

// --- requests ---------------------------------------------------------------

#[derive(Debug)]
pub struct CreateWorkflow {
    pub slug: String,
    pub title: String,
    pub description: String,
    pub tags: Vec<String>,
    pub yaml: String,
    pub changelog: Option<String>,
}

#[derive(Debug)]
pub struct PublishVersion {
    pub yaml: String,
    pub changelog: Option<String>,
}

#[derive(Debug)]
pub struct UpdateWorkflow {
    pub title: Option<String>,
    pub description: Option<String>,
    pub tags: Option<Vec<String>>,
}

#[derive(Debug)]
pub struct RecordInstall {
    /// Opaque per-harness UUID. Not a user, not a hostname -- the schema is
    /// explicit that this must not identify a person or a machine.
    pub installation_id: Uuid,
    pub version: i32,
}

impl CreateWorkflow {
    /// What the request is refused for, if it is: the first of its fields, in
    /// order, that is refused.
    pub open spec fn verdict(&self, max_yaml: usize) -> Verdict {
        both(
            slug_verdict(self.slug@),
            both(
                len_verdict("title"@, self.title@, TITLE_MAX),
                both(
                    len_verdict("description"@, self.description@, DESCRIPTION_MAX),
                    both(
                        tags_verdict(self.tags.deep_view()),
                        both(
                            yaml_verdict(self.yaml@, max_yaml),
                            optional_len_verdict(
                                "changelog"@,
                                self.changelog.deep_view(),
                                CHANGELOG_MAX,
                            ),
                        ),
                    ),
                ),
            ),
        )
    }

    pub fn validate(&self, max_yaml: usize) -> (res: Result<()>)
        ensures
            verdict(res) == self.verdict(max_yaml),
    {
        validate_slug(self.slug.as_str())?;
        validate_len("title", self.title.as_str(), TITLE_MAX)?;
        validate_len("description", self.description.as_str(), DESCRIPTION_MAX)?;
        validate_tags(self.tags.as_slice())?;
        validate_yaml(self.yaml.as_str(), max_yaml)?;
        validate_optional_len("changelog", &self.changelog, CHANGELOG_MAX)
    }
}

impl PublishVersion {
    /// What the request is refused for, if it is.
    pub open spec fn verdict(&self, max_yaml: usize) -> Verdict {
        both(
            yaml_verdict(self.yaml@, max_yaml),
            optional_len_verdict("changelog"@, self.changelog.deep_view(), CHANGELOG_MAX),
        )
    }

    pub fn validate(&self, max_yaml: usize) -> (res: Result<()>)
        ensures
            verdict(res) == self.verdict(max_yaml),
    {
        validate_yaml(self.yaml.as_str(), max_yaml)?;
        validate_optional_len("changelog", &self.changelog, CHANGELOG_MAX)
    }
}

impl UpdateWorkflow {
    /// What the request is refused for, if it is: a field that is there and is
    /// refused, or that none is there at all.
    pub open spec fn verdict(&self) -> Verdict {
        both(
            optional_len_verdict("title"@, self.title.deep_view(), TITLE_MAX),
            both(
                optional_len_verdict("description"@, self.description.deep_view(), DESCRIPTION_MAX),
                both(
                    match self.tags {
                        Some(tags) => tags_verdict(tags.deep_view()),
                        None => Ok(()),
                    },
                    if self.title is None && self.description is None && self.tags is None {
                        bad("nothing to update"@)
                    } else {
                        Ok(())
                    },
                ),
            ),
        )
    }

    pub fn validate(&self) -> (res: Result<()>)
        ensures
            verdict(res) == self.verdict(),
    {
        validate_optional_len("title", &self.title, TITLE_MAX)?;
        validate_optional_len("description", &self.description, DESCRIPTION_MAX)?;
        if let Some(tags) = &self.tags {
            validate_tags(tags.as_slice())?;
        }
        if self.title.is_none() && self.description.is_none() && self.tags.is_none() {
            return refuse("nothing to update");
        }
        Ok(())
    }
}

/// A new workflow is accepted exactly when every field of it is.
pub proof fn a_workflow_is_accepted_field_by_field(body: CreateWorkflow, max_yaml: usize)
    ensures
        body.verdict(max_yaml) is Ok <==> {
            &&& slug_verdict(body.slug@) is Ok
            &&& len_verdict("title"@, body.title@, TITLE_MAX) is Ok
            &&& len_verdict("description"@, body.description@, DESCRIPTION_MAX) is Ok
            &&& tags_verdict(body.tags.deep_view()) is Ok
            &&& yaml_verdict(body.yaml@, max_yaml) is Ok
            &&& optional_len_verdict("changelog"@, body.changelog.deep_view(), CHANGELOG_MAX) is Ok
        },
{
}

/// An update that changes nothing is refused.
pub proof fn an_update_changes_something(body: UpdateWorkflow)
    requires
        body.verdict() is Ok,
    ensures
        body.title is Some || body.description is Some || body.tags is Some,
{
}

/// A field that holds nothing but white space does not count as present.
pub proof fn white_space_is_not_a_value(field: Seq<char>, value: Seq<char>, max: usize)
    requires
        is_blank(value),
    ensures
        len_verdict(field, value, max) == bad(field + " is required"@),
        yaml_verdict(value, max) == bad("yaml is required"@),
{
    trimming_empties_only_blanks(value);
}

/// A document past the limit is too large, not a bad request: 413, not 400.
pub proof fn an_oversized_document_is_too_large(yaml: Seq<char>, max: usize)
    requires
        !is_blank(yaml),
        encode_utf8(yaml).len() > max,
    ensures
        yaml_verdict(yaml, max) == Err::<(), ErrorView>(ErrorView::TooLarge),
        ErrorView::TooLarge.status() == 413,
{
    trimming_empties_only_blanks(yaml);
}

// --- responses --------------------------------------------------------------

/// A moment, in seconds and nanoseconds since the Unix epoch.
#[derive(Clone, Copy, Debug, PartialEq, Eq, Structural)]
pub struct Timestamp {
    pub secs: i64,
    pub nanos: u32,
}

#[derive(Debug)]
pub struct WorkflowSummary {
    pub slug: String,
    pub title: String,
    pub description: String,
    pub tags: Vec<String>,
    pub official: bool,
    pub publisher: String,
    pub latest_version: Option<i32>,
    pub installs: i64,
    pub updated_at: Timestamp,
}

#[derive(Debug)]
pub struct VersionSummary {
    pub version: i32,
    pub changelog: Option<String>,
    pub published_at: Timestamp,
    pub withdrawn: bool,
}

#[derive(Debug)]
pub struct VersionDocument {
    pub slug: String,
    pub version: i32,
    pub yaml: String,
    pub changelog: Option<String>,
    pub published_at: Timestamp,
    pub withdrawn: bool,
}

/// The publisher a token authenticates as, as the harness shows it.
#[derive(Debug)]
pub struct Me {
    pub github_login: String,
    /// What entries are shown under. Null falls back to the login.
    pub display_name: Option<String>,
    pub avatar_url: Option<String>,
}

#[derive(Debug)]
pub struct IssuedToken {
    pub publisher_id: Uuid,
    pub github_login: String,
    pub name: String,
    /// Present exactly once, in the response that created it.
    pub token: String,
}

/// What a handler did, where there is nothing else to say.
#[derive(Debug)]
pub struct Status {
    pub status: &'static str,
}

/// The version a workflow now has.
#[derive(Debug)]
pub struct Published {
    pub slug: String,
    pub version: i32,
}

} // verus!
