use harness_registry::routes::workflows::{
    ListParams, Sort, LIST_FILTER, LIST_PAGE, ORDER_INSTALLS, ORDER_RECENT, SUMMARY_SELECT,
};
use serde_json::Value;

/// The parameters of a listing, as a query string that has been parsed into
/// JSON gives them.
fn params(raw: &str) -> ListParams {
    let value: Value = serde_json::from_str(raw).expect(raw);
    let text = |name: &str| value.get(name).and_then(|v| v.as_str());
    ListParams {
        tag: text("tag").map(str::to_owned),
        q: text("q").map(str::to_owned),
        official: value.get("official").and_then(|v| v.as_bool()),
        limit: value.get("limit").and_then(|v| v.as_i64()),
        offset: value.get("offset").and_then(|v| v.as_i64()),
        sort: Sort::from_param(text("sort")),
    }
}

/// The listing's default order is the anti-spam property, not a
/// preference: ordering by recency hands the top of the list to whoever
/// publishes the most, which is the shape of every spam incentive. If this
/// test starts failing, that reward has been put back.
#[test]
fn the_default_listing_order_is_installs_not_recency() {
    assert_eq!(Sort::default(), Sort::Installs);
    assert!(ORDER_INSTALLS.contains("installs DESC"));
    assert!(!ORDER_RECENT.contains("installs"));
    // Official leads either way, so the project's own workflows are found
    // whatever their counts.
    assert!(ORDER_INSTALLS.starts_with(" ORDER BY w.official DESC"));
    assert!(ORDER_RECENT.starts_with(" ORDER BY w.official DESC"));
}

/// `sort=` is optional and its absence must mean the default, not an
/// error -- a browse should never fail over a missing query parameter.
#[test]
fn sort_parses_and_defaults() {
    let absent = params("{}");
    assert_eq!(absent.sort, Sort::Installs);
    assert_eq!(absent.tag, None);

    let recent = params(r#"{"sort":"recent"}"#);
    assert_eq!(recent.sort, Sort::Recent);

    let installs = params(r#"{"sort":"installs"}"#);
    assert_eq!(installs.sort, Sort::Installs);
}

/// `?sort=bogus` must not come back as a 400: the docs promise a fallback, and
/// this pins the promise rather than the implementation detail.
#[test]
fn an_unrecognised_sort_falls_back_instead_of_erroring() {
    let p = params(r#"{"sort":"bogus"}"#);
    assert_eq!(p.sort, Sort::Installs);
}

/// Case and stray whitespace should not be the difference between a
/// working sort and a silently ignored one.
#[test]
fn sort_is_case_and_whitespace_insensitive() {
    for raw in [r#"{"sort":"RECENT"}"#, r#"{"sort":" recent "}"#] {
        let p = params(raw);
        assert_eq!(p.sort, Sort::Recent, "{raw}");
    }
}

/// The paging clause is bound separately from the order, so the two cannot
/// be reordered into `LIMIT` before `ORDER BY` by an edit to either.
#[test]
fn a_listing_orders_before_it_pages() {
    let sql = format!("{SUMMARY_SELECT}{LIST_FILTER}{ORDER_INSTALLS}{LIST_PAGE}");
    let order = sql.find("ORDER BY").expect("ordered");
    let limit = sql.find("LIMIT").expect("paged");
    assert!(order < limit, "ORDER BY must precede LIMIT:\n{sql}");
}
