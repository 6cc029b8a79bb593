use harness_registry::db::DbError;
use harness_registry::error::{
    expect_answer, expect_row, expect_touched, expect_unique, on_unique_violation, Error,
};

fn failure(code: Option<&str>) -> DbError {
    DbError { code: code.map(str::to_owned), message: "relation \"x\" broke".to_owned() }
}

fn answer(e: Error) -> (u16, String) {
    let response = e.into_response();
    (response.status, response.error)
}

#[test]
fn every_refusal_has_its_status_and_words() {
    let cases = [
        (Error::BadRequest("no".to_owned()), 400, "no"),
        (Error::Unauthorized, 401, "authentication required"),
        (Error::Forbidden("stop".to_owned()), 403, "stop"),
        (Error::NotFound("workflow"), 404, "workflow not found"),
        (Error::Conflict("taken".to_owned()), 409, "taken"),
        (Error::TooLarge, 413, "payload too large"),
        (Error::TooManyRequests, 429, "too many requests"),
        (Error::Database(failure(None)), 500, "internal error"),
    ];
    for (e, status, told) in cases {
        assert_eq!(answer(e), (status, told.to_owned()));
    }
}

#[test]
fn a_database_failure_is_logged_in_full_and_told_in_brief() {
    let e = Error::from(failure(Some("42P01")));
    assert_eq!(e.message(), "relation \"x\" broke");
    assert_eq!(answer(e), (500, "internal error".to_owned()));
}

#[test]
fn a_unique_violation_is_a_conflict_and_nothing_else_is() {
    let e = on_unique_violation(failure(Some("23505")), "taken");
    assert!(matches!(e, Error::Conflict(m) if m == "taken"));
    for code in [None, Some("23503"), Some("2350"), Some("")] {
        let e = on_unique_violation(failure(code), "taken");
        assert!(matches!(e, Error::Database(d) if d.code.as_deref() == code));
    }
}

#[test]
fn a_reply_means_what_it_is_asked_for() {
    assert_eq!(expect_answer::<u8>(Ok(3)).unwrap(), 3);
    assert!(matches!(expect_answer::<u8>(Err(failure(None))), Err(Error::Database(_))));

    assert_eq!(expect_row::<u8>(Ok(Some(3)), "x").unwrap(), 3);
    assert!(matches!(expect_row::<u8>(Ok(None), "x"), Err(Error::NotFound("x"))));
    assert!(matches!(expect_row::<u8>(Err(failure(None)), "x"), Err(Error::Database(_))));

    assert!(expect_touched(Ok(1), "x").is_ok());
    assert!(expect_touched(Ok(2), "x").is_ok());
    assert!(matches!(expect_touched(Ok(0), "x"), Err(Error::NotFound("x"))));
    assert!(matches!(expect_touched(Err(failure(None)), "x"), Err(Error::Database(_))));

    assert_eq!(expect_unique::<u8>(Ok(3), "m").unwrap(), 3);
    let lost = expect_unique::<u8>(Err(failure(Some("23505"))), "m");
    assert!(matches!(lost, Err(Error::Conflict(m)) if m == "m"));
    assert!(matches!(expect_unique::<u8>(Err(failure(None)), "m"), Err(Error::Database(_))));
}
