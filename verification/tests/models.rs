use harness_registry::error::Error;
use harness_registry::models::{
    validate_len, validate_slug, validate_tags, validate_yaml, CreateWorkflow, PublishVersion,
    UpdateWorkflow, SLUG_MAX, TAGS_MAX, TAG_MAX,
};

#[test]
fn plain_slugs_are_accepted() {
    for slug in ["deploy", "geo-audit-ecommerce", "geo-audit-2"] {
        assert!(validate_slug(slug).is_ok(), "{slug}");
    }
}

/// A harness resolves a project workflow *before* its bundled defaults, so
/// an installed workflow of a bundled name replaces it rather than sitting
/// beside it -- invisibly, with nothing deleted to notice. Refusing the name
/// here means it never exists to be installed.
#[test]
fn a_bundled_workflows_name_cannot_be_published() {
    for slug in [
        "idea-to-pr",
        "revise-pr",
        "review-pr",
        "merge-pr",
        "judge-ab",
        "architect",
        "linear-epic-supervise",
    ] {
        assert!(validate_slug(slug).is_err(), "{slug} should be reserved");
    }
}

/// The three moving out of the harness must stay publishable, or the move
/// cannot happen. Their squatting window is closed by publishing them
/// before any third-party token exists, not by reserving them.
#[test]
fn the_workflows_moving_into_the_library_are_not_reserved() {
    for slug in ["geo-audit", "bc-idea-to-pr", "review-area"] {
        assert!(
            validate_slug(slug).is_ok(),
            "{slug} is moving to the library and must remain publishable"
        );
    }
}

/// Reservation is checked last, so an author is told about the shape of
/// their slug before its availability -- otherwise `Idea-To-PR` would be
/// reported as reserved and they would fix the wrong thing.
#[test]
fn shape_is_reported_before_availability() {
    let e = validate_slug("Idea-To-PR").unwrap_err();
    assert!(
        format!("{e:?}").contains("lowercase"),
        "expected the casing complaint, got {e:?}"
    );
}

#[test]
fn a_slug_cannot_escape_the_workflows_directory() {
    // The schema notes a slug must not shadow or escape
    // `.harness/workflows/<name>.yaml`. These are the shapes that would.
    for slug in ["../etc/passwd", "a/b", "a.yaml", r"a\b", "..", "."] {
        assert!(validate_slug(slug).is_err(), "{slug} should be rejected");
    }
}

#[test]
fn a_slug_cannot_be_cosmetically_confusable() {
    // Leading, trailing and doubled dashes all render as near-identical
    // names in a listing, which is how one workflow impersonates another.
    for slug in ["-deploy", "deploy-", "idea--to-pr"] {
        assert!(validate_slug(slug).is_err(), "{slug} should be rejected");
    }
}

#[test]
fn slugs_are_length_bounded_in_both_directions() {
    assert!(validate_slug("").is_err());
    assert!(validate_slug(&"a".repeat(SLUG_MAX)).is_ok());
    assert!(validate_slug(&"a".repeat(SLUG_MAX + 1)).is_err());
}

#[test]
fn uppercase_is_rejected_rather_than_folded() {
    // Folding would make Deploy and deploy the same row on one path and
    // different rows on another; refusing is unambiguous.
    assert!(validate_slug("Deploy").is_err());
}

#[test]
fn tags_are_bounded_in_count_and_length() {
    assert!(validate_tags(&[]).is_ok());
    assert!(validate_tags(&vec!["ci".to_owned(); TAGS_MAX]).is_ok());
    assert!(validate_tags(&vec!["ci".to_owned(); TAGS_MAX + 1]).is_err());
    assert!(validate_tags(&["".to_owned()]).is_err());
    assert!(validate_tags(&["a".repeat(TAG_MAX + 1)]).is_err());
}

#[test]
fn an_oversized_document_is_too_large_not_bad_request() {
    // The distinction matters to a client deciding whether to retry.
    let body = PublishVersion {
        yaml: "x".repeat(101),
        changelog: None,
    };
    assert!(matches!(body.validate(100), Err(Error::TooLarge)));
}

#[test]
fn whitespace_only_fields_do_not_count_as_present() {
    let body = CreateWorkflow {
        slug: "ok".into(),
        title: "   ".into(),
        description: "d".into(),
        tags: vec![],
        yaml: "y".into(),
        changelog: None,
    };
    assert!(body.validate(1024).is_err());
}

#[test]
fn an_update_must_change_something() {
    let empty = UpdateWorkflow {
        title: None,
        description: None,
        tags: None,
    };
    assert!(empty.validate().is_err());
}

#[test]
fn each_refusal_of_a_field_names_the_field_and_its_bound() {
    let told = |res: Result<(), Error>| res.unwrap_err().message();
    assert_eq!(told(validate_len("title", " ", 120)), "title is required");
    assert_eq!(
        told(validate_len("title", &"x".repeat(121), 120)),
        "title must be at most 120 characters"
    );
    assert!(validate_len("title", &"x".repeat(120), 120).is_ok());
    // The bound is on the bytes a field takes.
    assert!(validate_len("title", &"é".repeat(60), 120).is_ok());
    assert!(validate_len("title", &"é".repeat(61), 120).is_err());

    assert_eq!(told(validate_slug("")), "slug must be 1-64 characters");
    assert_eq!(
        told(validate_slug("a_b")),
        "slug may contain only lowercase letters, digits and dashes"
    );
    assert_eq!(
        told(validate_slug("-a")),
        "slug may not start or end with a dash, or contain a double dash"
    );
    assert_eq!(
        told(validate_slug("architect")),
        "`architect` is the name of a workflow the harness ships, and installing one of that \
         name would silently replace it"
    );

    let tags = |tags: &[&str]| {
        validate_tags(&tags.iter().map(|t| t.to_string()).collect::<Vec<String>>())
    };
    assert_eq!(told(tags(&["a"; 11])), "at most 10 tags");
    assert_eq!(told(tags(&["ok", ""])), "each tag must be 1-32 characters");
    assert_eq!(
        told(tags(&["ok", "No", ""])),
        "tags may contain only lowercase letters, digits and dashes"
    );
    assert!(tags(&["a"; 10]).is_ok());
    // A tag, unlike a slug, may be all dashes.
    assert!(tags(&["--"]).is_ok());

    assert_eq!(told(validate_yaml("\n ", 10)), "yaml is required");
    assert_eq!(told(validate_yaml("0123456789a", 10)), "payload too large");
    assert!(validate_yaml("0123456789", 10).is_ok());
}

#[test]
fn a_request_is_refused_for_its_first_bad_field() {
    let good = || CreateWorkflow {
        slug: "deploy".to_owned(),
        title: "Deploy".to_owned(),
        description: "Ships it".to_owned(),
        tags: vec![],
        yaml: "steps: []".to_owned(),
        changelog: Some("First".to_owned()),
    };
    assert!(good().validate(100).is_ok());
    let told = |body: CreateWorkflow| body.validate(100).unwrap_err().message();
    let all_bad = || CreateWorkflow {
        slug: String::new(),
        title: String::new(),
        description: String::new(),
        tags: vec![String::new()],
        yaml: String::new(),
        changelog: Some(String::new()),
    };
    assert_eq!(told(all_bad()), "slug must be 1-64 characters");
    let body = CreateWorkflow { slug: good().slug, ..all_bad() };
    assert_eq!(told(body), "title is required");
    let body = CreateWorkflow { slug: good().slug, title: good().title, ..all_bad() };
    assert_eq!(told(body), "description is required");
    let body = CreateWorkflow { tags: vec![String::new()], yaml: String::new(), ..good() };
    assert_eq!(told(body), "each tag must be 1-32 characters");
    let body = CreateWorkflow { yaml: String::new(), changelog: Some(String::new()), ..good() };
    assert_eq!(told(body), "yaml is required");
    let body = CreateWorkflow { changelog: Some(String::new()), ..good() };
    assert_eq!(told(body), "changelog is required");
    let body = CreateWorkflow { changelog: Some("x".repeat(4_001)), ..good() };
    assert_eq!(told(body), "changelog must be at most 4000 characters");
    let body = CreateWorkflow { description: "x".repeat(2_001), ..good() };
    assert_eq!(told(body), "description must be at most 2000 characters");
}
