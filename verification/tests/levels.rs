use analytics_api::domain::threshold::Double;
use analytics_api::entities::thresholds::Model;
use analytics_api::ids::Uuid;
use analytics_api::json::Object;
use analytics_api::levels::{
    evaluate_items, evaluate_thresholds, items_comparisons, row_comparisons, should_upgrade_level,
    Comparison,
};
use analytics_api::time::{DateTimeWithTimeZone, NaiveDateTime};
use serde_json::Value;

fn moment() -> DateTimeWithTimeZone {
    DateTimeWithTimeZone {
        utc: NaiveDateTime { seconds: 1_700_000_000, nanos: 0 },
        offset_seconds: 0,
    }
}

fn double(value: f64) -> Double {
    Double { bits: value.to_bits() }
}

fn threshold(field: &str, operator: &str, value: f64, level: &str) -> Model {
    Model {
        id: Uuid { value: 1 },
        insight_tenant_id: Uuid { value: 2 },
        metric_id: Uuid { value: 3 },
        field_name: field.to_owned(),
        operator: operator.to_owned(),
        value: double(value),
        level: level.to_owned(),
        created_at: moment(),
        updated_at: moment(),
    }
}

fn row(fields: Vec<(&str, Value)>) -> Object {
    let mut object = serde_json::Map::new();
    for (key, value) in fields {
        object.insert(key.to_owned(), value);
    }
    object
}

fn number(value: f64) -> Value {
    Value::from(value)
}

fn text(value: &str) -> Value {
    Value::String(value.to_owned())
}

fn levels_of(object: &Object) -> Object {
    match object.get("_thresholds") {
        Some(Value::Object(levels)) => levels.clone(),
        other => panic!("no levels: {:?}", other),
    }
}

#[test]
fn critical_outranks_warning() {
    assert!(should_upgrade_level(Some("warning"), "critical"));
    assert!(!should_upgrade_level(Some("critical"), "warning"));
}

#[test]
fn severity_goes_critical_warning_good_other() {
    let order = ["critical", "warning", "good", "info"];
    for (i, higher) in order.iter().enumerate() {
        for (j, lower) in order.iter().enumerate() {
            assert_eq!(should_upgrade_level(Some(lower), higher), i < j);
        }
    }
}

#[test]
fn any_level_outranks_none() {
    assert!(should_upgrade_level(None, "critical"));
    assert!(should_upgrade_level(None, "good"));
    assert!(should_upgrade_level(None, "info"));
    assert!(should_upgrade_level(None, ""));
}

#[test]
fn unknown_levels_are_alike() {
    assert!(!should_upgrade_level(Some("info"), "notice"));
    assert!(!should_upgrade_level(Some("notice"), "info"));
    assert!(!should_upgrade_level(Some("CRITICAL"), "Good"));
    assert!(should_upgrade_level(Some("CRITICAL"), "good"));
}

#[test]
fn comparisons_are_called_for_on_numbers_only() {
    let object = row(vec![
        ("load", number(0.75)),
        ("count", Value::from(7u64)),
        ("below", Value::from(-7i64)),
        ("name", text("12")),
        ("gone", Value::Null),
        ("flag", Value::Bool(true)),
    ]);
    let thresholds = vec![
        threshold("load", "gt", 0.5, "warning"),
        threshold("count", "ge", 8.0, "critical"),
        threshold("below", "lt", 0.0, "good"),
        threshold("name", "gt", 1.0, "warning"),
        threshold("gone", "gt", 1.0, "warning"),
        threshold("flag", "gt", 1.0, "warning"),
        threshold("absent", "gt", 1.0, "warning"),
    ];
    assert_eq!(
        row_comparisons(&object, &thresholds),
        vec![
            Some(Comparison {
                value: double(0.75),
                operator: "gt".to_owned(),
                against: double(0.5),
            }),
            Some(Comparison {
                value: double(7.0),
                operator: "ge".to_owned(),
                against: double(8.0),
            }),
            Some(Comparison {
                value: double(-7.0),
                operator: "lt".to_owned(),
                against: double(0.0),
            }),
            None,
            None,
            None,
            None,
        ]
    );
}

#[test]
fn the_most_severe_match_gives_the_level() {
    let thresholds = vec![
        threshold("load", "gt", 0.1, "good"),
        threshold("load", "gt", 0.9, "critical"),
        threshold("load", "gt", 0.5, "warning"),
    ];
    let mut object = row(vec![("load", number(0.95))]);
    evaluate_thresholds(&mut object, &thresholds, &vec![true, true, true]);
    assert_eq!(
        object,
        row(vec![
            ("load", number(0.95)),
            ("_thresholds", Value::Object(row(vec![("load", text("critical"))]))),
        ])
    );
}

#[test]
fn thresholds_that_do_not_match_give_no_level() {
    let thresholds = vec![
        threshold("load", "gt", 0.1, "good"),
        threshold("load", "gt", 0.9, "critical"),
        threshold("count", "gt", 3.0, "warning"),
    ];
    let mut object = row(vec![("load", number(0.2)), ("count", number(1.0))]);
    evaluate_thresholds(&mut object, &thresholds, &vec![true, false, false]);
    assert_eq!(levels_of(&object), row(vec![("load", text("good"))]));
}

#[test]
fn a_verdict_counts_only_where_there_is_a_number() {
    let thresholds = vec![
        threshold("name", "gt", 0.1, "critical"),
        threshold("absent", "gt", 0.1, "critical"),
    ];
    let mut object = row(vec![("name", text("0.5"))]);
    evaluate_thresholds(&mut object, &thresholds, &vec![true, true]);
    assert_eq!(levels_of(&object), row(vec![]));
}

#[test]
fn a_missing_verdict_is_no_match() {
    let thresholds = vec![
        threshold("load", "gt", 0.1, "good"),
        threshold("load", "gt", 0.9, "critical"),
    ];
    let mut object = row(vec![("load", number(0.95))]);
    evaluate_thresholds(&mut object, &thresholds, &vec![true]);
    assert_eq!(levels_of(&object), row(vec![("load", text("good"))]));
}

#[test]
fn the_first_of_equally_severe_matches_gives_the_level() {
    let thresholds = vec![
        threshold("load", "gt", 0.1, "notice"),
        threshold("load", "gt", 0.2, "info"),
    ];
    let mut object = row(vec![("load", number(0.95))]);
    evaluate_thresholds(&mut object, &thresholds, &vec![true, true]);
    assert_eq!(levels_of(&object), row(vec![("load", text("notice"))]));
}

#[test]
fn order_of_thresholds_does_not_matter() {
    let forward = vec![
        threshold("load", "gt", 0.1, "good"),
        threshold("load", "gt", 0.5, "warning"),
        threshold("count", "gt", 3.0, "critical"),
    ];
    let backward = vec![
        threshold("count", "gt", 3.0, "critical"),
        threshold("load", "gt", 0.5, "warning"),
        threshold("load", "gt", 0.1, "good"),
    ];
    let mut one = row(vec![("load", number(0.7)), ("count", number(4.0))]);
    let mut other = row(vec![("load", number(0.7)), ("count", number(4.0))]);
    evaluate_thresholds(&mut one, &forward, &vec![true, true, true]);
    evaluate_thresholds(&mut other, &backward, &vec![true, true, true]);
    assert_eq!(one, other);
    assert_eq!(
        levels_of(&one),
        row(vec![("load", text("warning")), ("count", text("critical"))])
    );
}

#[test]
fn levels_replace_what_stood_in_their_place() {
    let mut object = row(vec![("_thresholds", number(1.0))]);
    evaluate_thresholds(&mut object, &vec![], &vec![]);
    assert_eq!(object, row(vec![("_thresholds", Value::Object(row(vec![])))]));
}

#[test]
fn a_threshold_on_the_levels_themselves_reads_what_stood_there() {
    let thresholds = vec![threshold("_thresholds", "gt", 0.5, "warning")];
    let mut object = row(vec![("_thresholds", number(1.0))]);
    evaluate_thresholds(&mut object, &thresholds, &vec![true]);
    assert_eq!(levels_of(&object), row(vec![("_thresholds", text("warning"))]));
}

#[test]
fn rows_are_evaluated_one_by_one() {
    let thresholds = vec![
        threshold("load", "gt", 0.5, "warning"),
        threshold("load", "gt", 0.9, "critical"),
    ];
    let items = vec![
        row(vec![("load", number(0.95))]),
        row(vec![("load", number(0.6))]),
        row(vec![("load", number(0.99))]),
    ];
    let lists = items_comparisons(&items, &thresholds);
    assert_eq!(lists.len(), 3);
    assert_eq!(lists[1], row_comparisons(&items[1], &thresholds));
    let verdicts = vec![vec![true, true], vec![true, false]];
    let evaluated = evaluate_items(items, &thresholds, &verdicts);
    assert_eq!(levels_of(&evaluated[0]), row(vec![("load", text("critical"))]));
    assert_eq!(levels_of(&evaluated[1]), row(vec![("load", text("warning"))]));
    assert_eq!(levels_of(&evaluated[2]), row(vec![]));
    assert_eq!(evaluated.len(), 3);
}
