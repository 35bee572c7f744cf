use analytics_api::auth::SecurityContext;
use analytics_api::domain::query::QueryRequest;
use analytics_api::ids::Uuid;
use analytics_api::sql::{build_query, extract_odata_value};
use analytics_api::text::{characters, decimal_text, find, same_text};

const TENANT: u128 = 0x0192_4e5f_a0b1_7c2d_8e3f_0a1b_2c3d_4e5f;

fn ctx() -> SecurityContext {
    SecurityContext { insight_tenant_id: Uuid { value: TENANT } }
}

fn request(filter: Option<&str>, orderby: Option<&str>, top: u64) -> QueryRequest {
    QueryRequest {
        filter: filter.map(str::to_owned),
        orderby: orderby.map(str::to_owned),
        top,
    }
}

fn value(filter: &str, field: &str, op: &str) -> Option<String> {
    extract_odata_value(filter, field, op)
}

#[test]
fn odata_value_is_the_quoted_text() {
    let filter = "metric_date ge '2026-01-01' and metric_date lt '2026-02-01'";
    assert_eq!(value(filter, "metric_date", "ge"), Some("2026-01-01".to_owned()));
    assert_eq!(value(filter, "metric_date", "lt"), Some("2026-02-01".to_owned()));
    assert_eq!(value(filter, "metric_date", "gt"), None);
    assert_eq!(value(filter, "other_date", "ge"), None);
}

#[test]
fn odata_value_may_be_empty() {
    assert_eq!(value("d ge ''", "d", "ge"), Some(String::new()));
    assert_eq!(value("d ge '' rest", "d", "ge"), Some(String::new()));
}

#[test]
fn odata_value_needs_a_closing_quote() {
    assert_eq!(value("d ge '2026-01-01", "d", "ge"), None);
    assert_eq!(value("d ge '", "d", "ge"), None);
}

#[test]
fn odata_value_needs_the_exact_pattern() {
    assert_eq!(value("d  ge '1'", "d", "ge"), None);
    assert_eq!(value("d ge 1", "d", "ge"), None);
    assert_eq!(value("D GE '1'", "d", "ge"), None);
    assert_eq!(value("", "d", "ge"), None);
}

#[test]
fn odata_value_is_taken_at_the_first_match() {
    assert_eq!(value("d ge '1' and d ge '2'", "d", "ge"), Some("1".to_owned()));
    assert_eq!(value("d ge '1", "d", "ge"), None);
    assert_eq!(value("d ge d ge '3'", "d", "ge"), Some("3".to_owned()));
}

#[test]
fn odata_value_matches_the_end_of_a_longer_name() {
    assert_eq!(value("my_d ge '4'", "d", "ge"), Some("4".to_owned()));
}

#[test]
fn odata_value_is_counted_in_characters() {
    assert_eq!(value("größe ge 'zwölf' und", "größe", "ge"), Some("zwölf".to_owned()));
    assert_eq!(value("ü d ge 'ß' €", "d", "ge"), Some("ß".to_owned()));
}

#[test]
fn odata_value_stops_at_the_first_quote() {
    assert_eq!(value("d ge 'O''Brien'", "d", "ge"), Some("O".to_owned()));
}

#[test]
fn plain_statement() {
    let query = build_query("SELECT 1", &ctx(), &request(None, None, 50));
    assert_eq!(
        query.sql,
        "SELECT * FROM (SELECT 1) AS _q WHERE insight_tenant_id = ? LIMIT 51"
    );
    assert_eq!(query.params, vec!["01924e5f-a0b1-7c2d-8e3f-0a1b2c3d4e5f".to_owned()]);
}

#[test]
fn statement_with_every_clause() {
    let query = build_query(
        "SELECT * FROM daily",
        &ctx(),
        &request(
            Some("metric_date lt '2026-02-01' and metric_date ge '2026-01-01'"),
            Some("metric_date desc"),
            10,
        ),
    );
    assert_eq!(
        query.sql,
        "SELECT * FROM (SELECT * FROM daily) AS _q WHERE insight_tenant_id = ? \
         AND metric_date >= ? AND metric_date < ? ORDER BY metric_date desc LIMIT 11"
    );
    assert_eq!(
        query.params,
        vec![
            "01924e5f-a0b1-7c2d-8e3f-0a1b2c3d4e5f".to_owned(),
            "2026-01-01".to_owned(),
            "2026-02-01".to_owned(),
        ]
    );
}

#[test]
fn statement_with_one_bound() {
    let from = build_query("q", &ctx(), &request(Some("metric_date ge 'a'"), None, 1));
    assert_eq!(
        from.sql,
        "SELECT * FROM (q) AS _q WHERE insight_tenant_id = ? AND metric_date >= ? LIMIT 2"
    );
    assert_eq!(from.params[1..], ["a".to_owned()]);
    let to = build_query("q", &ctx(), &request(Some("metric_date lt 'b'"), None, 1));
    assert_eq!(
        to.sql,
        "SELECT * FROM (q) AS _q WHERE insight_tenant_id = ? AND metric_date < ? LIMIT 2"
    );
    assert_eq!(to.params[1..], ["b".to_owned()]);
}

#[test]
fn other_filters_are_left_out() {
    let query = build_query("q", &ctx(), &request(Some("org_unit_id eq '7'"), None, 5));
    assert_eq!(query.sql, "SELECT * FROM (q) AS _q WHERE insight_tenant_id = ? LIMIT 6");
    assert_eq!(query.params.len(), 1);
}

#[test]
fn page_size_is_between_1_and_200() {
    let ends = |top: u64, end: &str| {
        let sql = build_query("q", &ctx(), &request(None, None, top)).sql;
        assert!(sql.ends_with(end), "{} does not end with {}", sql, end);
    };
    ends(0, " LIMIT 2");
    ends(1, " LIMIT 2");
    ends(2, " LIMIT 3");
    ends(199, " LIMIT 200");
    ends(200, " LIMIT 201");
    ends(201, " LIMIT 201");
    ends(u64::MAX, " LIMIT 201");
}

#[test]
fn filter_stays_out_of_the_statement() {
    let one = build_query("q", &ctx(), &request(Some("metric_date ge '1'"), None, 5));
    let other = build_query(
        "q",
        &SecurityContext { insight_tenant_id: Uuid { value: 9 } },
        &request(Some("x and metric_date ge 'any other text'"), None, 5),
    );
    assert_eq!(one.sql, other.sql);
    assert_eq!(other.params[0], "00000000-0000-0000-0000-000000000009");
    assert_eq!(other.params[1], "any other text");
}

#[test]
fn one_placeholder_per_parameter() {
    let filters = [
        None,
        Some("metric_date ge '?'"),
        Some("metric_date lt '??'"),
        Some("metric_date ge '' and metric_date lt ''"),
    ];
    for filter in filters {
        let query = build_query("q", &ctx(), &request(filter, Some("a"), 7));
        assert_eq!(query.sql.matches('?').count(), query.params.len());
    }
    let query = build_query("a ? b", &ctx(), &request(None, Some("c ?"), 7));
    assert_eq!(query.sql.matches('?').count(), query.params.len() + 2);
}

#[test]
fn tenants_have_different_parameters() {
    let first = |tenant: u128| {
        let ctx = SecurityContext { insight_tenant_id: Uuid { value: tenant } };
        build_query("q", &ctx, &request(None, None, 1)).params[0].clone()
    };
    assert_eq!(first(0), "00000000-0000-0000-0000-000000000000");
    assert_eq!(first(u128::MAX), "ffffffff-ffff-ffff-ffff-ffffffffffff");
    assert_ne!(first(0x10), first(0x01));
    assert_eq!(first(TENANT), uuid::Uuid::from_u128(TENANT).to_string());
}

#[test]
fn numerals_are_decimal() {
    assert_eq!(decimal_text(0), "0");
    assert_eq!(decimal_text(9), "9");
    assert_eq!(decimal_text(10), "10");
    assert_eq!(decimal_text(201), "201");
    assert_eq!(decimal_text(u64::MAX), "18446744073709551615");
}

#[test]
fn texts_are_compared_character_by_character() {
    assert!(same_text("", ""));
    assert!(same_text("größe", "größe"));
    assert!(!same_text("a", "ab"));
    assert!(!same_text("ab", "a"));
    assert!(!same_text("a", "A"));
}

#[test]
fn texts_are_found_at_their_first_place() {
    let hay = characters("aabab");
    assert_eq!(find(&hay, &characters("ab")), Some(1));
    assert_eq!(find(&hay, &characters("")), Some(0));
    assert_eq!(find(&hay, &characters("bb")), None);
    assert_eq!(find(&hay, &characters("aababa")), None);
    assert_eq!(find(&hay, &hay), Some(0));
}
