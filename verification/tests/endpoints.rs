use analytics_api::auth::SecurityContext;
use analytics_api::domain::metric::{
    CreateMetricRequest, Metric, MetricSummary, TableColumn, UpdateMetricRequest,
};
use analytics_api::domain::query::{PageInfo, QueryRequest};
use analytics_api::domain::threshold::{
    validate_threshold, CreateThresholdRequest, Double, Threshold, ThresholdRules,
    UpdateThresholdRequest,
};
use analytics_api::entities::active_value::ActiveValue;
use analytics_api::entities::{metrics, table_columns, thresholds};
use analytics_api::handlers::{
    create_metric, create_threshold, delete_metric, delete_threshold, get_metric, health,
    insert_metric, insert_threshold, list_columns, list_columns_for_table, list_metrics,
    list_thresholds, query_metric, resume, update_metric, update_threshold,
};
use analytics_api::ids::Uuid;
use analytics_api::levels::Comparison;
use analytics_api::mappers::{
    model_to_column, model_to_metric, model_to_metric_summary, model_to_threshold,
};
use analytics_api::pending::{Pending, Stage, Step};
use analytics_api::protocol::{Call, ColumnFilter, MetricFilter, Reply, ThresholdFilter};
use analytics_api::response::{Response, StatusCode};
use analytics_api::time::{DateTimeWithTimeZone, NaiveDateTime};
use serde_json::Value;

const ALICE: SecurityContext = SecurityContext { insight_tenant_id: Uuid { value: 0xa1 } };
const BOB: SecurityContext = SecurityContext { insight_tenant_id: Uuid { value: 0xb0 } };

fn rules() -> ThresholdRules {
    ThresholdRules {
        operators: vec!["gt".to_owned(), "lt".to_owned()],
        levels: vec!["good".to_owned(), "warning".to_owned(), "critical".to_owned()],
    }
}

fn id(value: u128) -> Uuid {
    Uuid { value }
}

fn moment(seconds: i64) -> DateTimeWithTimeZone {
    DateTimeWithTimeZone { utc: NaiveDateTime { seconds, nanos: 5 }, offset_seconds: 7200 }
}

fn naive(seconds: i64) -> NaiveDateTime {
    NaiveDateTime { seconds, nanos: 5 }
}

fn double(value: f64) -> Double {
    Double { bits: value.to_bits() }
}

fn metric_row(number: u128, ctx: SecurityContext, enabled: bool) -> metrics::Model {
    metrics::Model {
        id: id(number),
        insight_tenant_id: ctx.insight_tenant_id,
        name: format!("metric {}", number),
        description: Some("what it counts".to_owned()),
        query_ref: "SELECT * FROM daily".to_owned(),
        is_enabled: enabled,
        created_at: moment(100),
        updated_at: moment(200),
    }
}

fn threshold_row(number: u128, metric: u128, ctx: SecurityContext) -> thresholds::Model {
    thresholds::Model {
        id: id(number),
        insight_tenant_id: ctx.insight_tenant_id,
        metric_id: id(metric),
        field_name: "load".to_owned(),
        operator: "gt".to_owned(),
        value: double(0.5),
        level: "warning".to_owned(),
        created_at: moment(100),
        updated_at: moment(200),
    }
}

fn column_row(number: u128, tenant: Option<Uuid>, table: &str) -> table_columns::Model {
    table_columns::Model {
        id: id(number),
        insight_tenant_id: tenant,
        clickhouse_table: table.to_owned(),
        field_name: format!("field {}", number),
        field_description: None,
    }
}

fn copy_metric(row: &metrics::Model) -> metrics::Model {
    metrics::Model {
        name: row.name.clone(),
        description: row.description.clone(),
        query_ref: row.query_ref.clone(),
        ..*row
    }
}

fn copy_threshold(row: &thresholds::Model) -> thresholds::Model {
    thresholds::Model {
        field_name: row.field_name.clone(),
        operator: row.operator.clone(),
        level: row.level.clone(),
        ..*row
    }
}

fn copy_column(row: &table_columns::Model) -> table_columns::Model {
    table_columns::Model {
        clickhouse_table: row.clickhouse_table.clone(),
        field_name: row.field_name.clone(),
        field_description: row.field_description.clone(),
        ..*row
    }
}

fn meets(condition: Option<Uuid>, value: Uuid) -> bool {
    match condition {
        Some(wanted) => wanted == value,
        None => true,
    }
}

fn given<T>(value: ActiveValue<T>, otherwise: T) -> T {
    match value {
        ActiveValue::Assigned(value) => value,
        ActiveValue::Unchanged(value) => value,
        ActiveValue::NotSet => otherwise,
    }
}

fn over<T>(value: ActiveValue<T>, before: T) -> T {
    match value {
        ActiveValue::Assigned(value) => value,
        _ => before,
    }
}

fn key(value: &ActiveValue<Uuid>) -> Option<Uuid> {
    match value {
        ActiveValue::Assigned(id) => Some(*id),
        ActiveValue::Unchanged(id) => Some(*id),
        ActiveValue::NotSet => None,
    }
}

struct Database {
    metrics: Vec<metrics::Model>,
    thresholds: Vec<thresholds::Model>,
    columns: Vec<table_columns::Model>,
    calls: Vec<String>,
    fail_at: Option<usize>,
}

impl Database {
    fn new() -> Database {
        Database {
            metrics: vec![
                metric_row(1, ALICE, true),
                metric_row(2, ALICE, false),
                metric_row(3, BOB, true),
            ],
            thresholds: vec![
                threshold_row(11, 1, ALICE),
                threshold_row(12, 2, ALICE),
                threshold_row(13, 3, BOB),
            ],
            columns: vec![
                column_row(21, None, "daily"),
                column_row(22, Some(ALICE.insight_tenant_id), "daily"),
                column_row(23, Some(BOB.insight_tenant_id), "daily"),
                column_row(24, Some(ALICE.insight_tenant_id), "weekly"),
                column_row(25, None, "weekly"),
            ],
            calls: vec![],
            fail_at: None,
        }
    }

    fn failing_at(call: usize) -> Database {
        Database { fail_at: Some(call), ..Database::new() }
    }

    fn select_metrics(&self, filter: &MetricFilter) -> Vec<metrics::Model> {
        self.metrics
            .iter()
            .filter(|row| {
                meets(filter.id, row.id)
                    && meets(filter.tenant, row.insight_tenant_id)
                    && (!filter.enabled_only || row.is_enabled)
            })
            .map(copy_metric)
            .collect()
    }

    fn select_thresholds(&self, filter: &ThresholdFilter) -> Vec<thresholds::Model> {
        self.thresholds
            .iter()
            .filter(|row| {
                meets(filter.id, row.id)
                    && meets(filter.metric_id, row.metric_id)
                    && meets(filter.tenant, row.insight_tenant_id)
            })
            .map(copy_threshold)
            .collect()
    }

    fn select_columns(&self, filter: &ColumnFilter) -> Vec<table_columns::Model> {
        self.columns
            .iter()
            .filter(|row| {
                let in_table = match &filter.table {
                    Some(table) => *table == row.clickhouse_table,
                    None => true,
                };
                let visible = match row.insight_tenant_id {
                    Some(tenant) => tenant == filter.tenant,
                    None => true,
                };
                in_table && visible
            })
            .map(copy_column)
            .collect()
    }

    fn update_metric(&mut self, active: metrics::ActiveModel) -> Reply {
        let wanted = key(&active.id);
        match self.metrics.iter_mut().find(|row| Some(row.id) == wanted) {
            Some(row) => {
                let before = copy_metric(row);
                *row = metrics::Model {
                    id: before.id,
                    insight_tenant_id: over(active.insight_tenant_id, before.insight_tenant_id),
                    name: over(active.name, before.name),
                    description: over(active.description, before.description),
                    query_ref: over(active.query_ref, before.query_ref),
                    is_enabled: over(active.is_enabled, before.is_enabled),
                    created_at: over(active.created_at, before.created_at),
                    updated_at: moment(300),
                };
                Reply::UpdatedMetric(copy_metric(row))
            }
            None => Reply::Failed,
        }
    }

    fn update_threshold(&mut self, active: thresholds::ActiveModel) -> Reply {
        let wanted = key(&active.id);
        match self.thresholds.iter_mut().find(|row| Some(row.id) == wanted) {
            Some(row) => {
                let before = copy_threshold(row);
                *row = thresholds::Model {
                    id: before.id,
                    insight_tenant_id: over(active.insight_tenant_id, before.insight_tenant_id),
                    metric_id: over(active.metric_id, before.metric_id),
                    field_name: over(active.field_name, before.field_name),
                    operator: over(active.operator, before.operator),
                    value: over(active.value, before.value),
                    level: over(active.level, before.level),
                    created_at: over(active.created_at, before.created_at),
                    updated_at: moment(300),
                };
                Reply::UpdatedThreshold(copy_threshold(row))
            }
            None => Reply::Failed,
        }
    }

    fn perform(&mut self, call: Call) -> Reply {
        let number: usize = self.calls.len();
        self.calls.push(format!("{:?}", call));
        if self.fail_at == Some(number) {
            return Reply::Failed;
        }
        match call {
            Call::AllMetrics(filter) => Reply::Metrics(self.select_metrics(&filter)),
            Call::OneMetric(filter) => Reply::Metric(self.select_metrics(&filter).pop()),
            Call::InsertMetric(active) => {
                let row = metrics::Model {
                    id: given(active.id, id(0)),
                    insight_tenant_id: given(active.insight_tenant_id, id(0)),
                    name: given(active.name, String::new()),
                    description: given(active.description, None),
                    query_ref: given(active.query_ref, String::new()),
                    is_enabled: given(active.is_enabled, false),
                    created_at: given(active.created_at, moment(400)),
                    updated_at: given(active.updated_at, moment(400)),
                };
                self.metrics.push(row);
                Reply::Done
            }
            Call::UpdateMetric(active) => self.update_metric(active),
            Call::AllThresholds(filter) => Reply::Thresholds(self.select_thresholds(&filter)),
            Call::OneThreshold(filter) => Reply::Threshold(self.select_thresholds(&filter).pop()),
            Call::InsertThreshold(active) => {
                let row = thresholds::Model {
                    id: given(active.id, id(0)),
                    insight_tenant_id: given(active.insight_tenant_id, id(0)),
                    metric_id: given(active.metric_id, id(0)),
                    field_name: given(active.field_name, String::new()),
                    operator: given(active.operator, String::new()),
                    value: given(active.value, double(0.0)),
                    level: given(active.level, String::new()),
                    created_at: given(active.created_at, moment(400)),
                    updated_at: given(active.updated_at, moment(400)),
                };
                self.thresholds.push(row);
                Reply::Done
            }
            Call::UpdateThreshold(active) => self.update_threshold(active),
            Call::DeleteThreshold(id) => {
                self.thresholds.retain(|row| row.id != id);
                Reply::Done
            }
            Call::AllColumns(filter) => Reply::Columns(self.select_columns(&filter)),
            Call::Compare(lists) => Reply::Verdicts(
                lists.iter().map(|list| list.iter().map(|_| true).collect()).collect(),
            ),
        }
    }

    fn run(&mut self, step: Step) -> Result<Response, StatusCode> {
        let mut step = step;
        loop {
            match step {
                Step::Done(outcome) => return outcome,
                Step::Wait(Pending { ctx, call, stage }) => {
                    let asked = copy_call(&call);
                    let reply = self.perform(call);
                    step = resume(&rules(), Pending { ctx, call: asked, stage }, reply);
                }
            }
        }
    }
}

/// A call of the same kind, to stand in its place while the request waits.
fn copy_call(call: &Call) -> Call {
    match call {
        Call::AllMetrics(filter) => Call::AllMetrics(*filter),
        Call::OneMetric(filter) => Call::OneMetric(*filter),
        Call::AllThresholds(filter) => Call::AllThresholds(*filter),
        Call::OneThreshold(filter) => Call::OneThreshold(*filter),
        _ => Call::Compare(vec![]),
    }
}

fn new_metric(name: &str) -> CreateMetricRequest {
    CreateMetricRequest {
        name: name.to_owned(),
        description: None,
        query_ref: "SELECT 1".to_owned(),
    }
}

fn no_change() -> UpdateMetricRequest {
    UpdateMetricRequest { name: None, description: None, query_ref: None, is_enabled: None }
}

fn new_threshold(operator: &str, level: &str) -> CreateThresholdRequest {
    CreateThresholdRequest {
        field_name: "load".to_owned(),
        operator: operator.to_owned(),
        value: double(0.25),
        level: level.to_owned(),
    }
}

fn threshold_change(operator: Option<&str>, level: Option<&str>) -> UpdateThresholdRequest {
    UpdateThresholdRequest {
        field_name: None,
        operator: operator.map(str::to_owned),
        value: None,
        level: level.map(str::to_owned),
    }
}

fn query(top: u64) -> QueryRequest {
    QueryRequest { filter: None, orderby: None, top }
}

fn shown_metric(outcome: Result<Response, StatusCode>) -> Metric {
    match outcome {
        Ok(Response::Metric(metric)) => metric,
        Ok(Response::CreatedMetric(metric)) => metric,
        other => panic!("no metric: {:?}", other),
    }
}

fn shown_threshold(outcome: Result<Response, StatusCode>) -> Threshold {
    match outcome {
        Ok(Response::Threshold(threshold)) => threshold,
        Ok(Response::CreatedThreshold(threshold)) => threshold,
        other => panic!("no threshold: {:?}", other),
    }
}

fn listed_metrics(outcome: Result<Response, StatusCode>) -> Vec<Uuid> {
    match outcome {
        Ok(Response::MetricList(list)) => list.iter().map(|metric| metric.id).collect(),
        other => panic!("no metrics: {:?}", other),
    }
}

fn listed_thresholds(outcome: Result<Response, StatusCode>) -> Vec<Uuid> {
    match outcome {
        Ok(Response::ThresholdList(list)) => list.iter().map(|item| item.id).collect(),
        other => panic!("no thresholds: {:?}", other),
    }
}

fn listed_columns(outcome: Result<Response, StatusCode>) -> Vec<Uuid> {
    match outcome {
        Ok(Response::ColumnList(list)) => list.iter().map(|column| column.id).collect(),
        other => panic!("no columns: {:?}", other),
    }
}

fn is_version_7(id: Uuid) -> bool {
    let id = uuid::Uuid::from_u128(id.value);
    id.get_version_num() == 7 && id.get_variant() == uuid::Variant::RFC4122
}

// Health and plain values

#[test]
fn health_says_healthy() {
    let body = Value::Object(health());
    assert_eq!(body.to_string(), "{\"status\":\"healthy\"}");
}

#[test]
fn status_codes_have_their_numbers() {
    assert_eq!(StatusCode::Success.as_u16(), 200);
    assert_eq!(StatusCode::Created.as_u16(), 201);
    assert_eq!(StatusCode::NoContent.as_u16(), 204);
    assert_eq!(StatusCode::BadRequest.as_u16(), 400);
    assert_eq!(StatusCode::NotFound.as_u16(), 404);
    assert_eq!(StatusCode::InternalServerError.as_u16(), 500);
}

#[test]
fn metrics_are_shown_with_times_in_utc() {
    assert_eq!(
        model_to_metric(metric_row(1, ALICE, true)),
        Metric {
            id: id(1),
            insight_tenant_id: ALICE.insight_tenant_id,
            name: "metric 1".to_owned(),
            description: Some("what it counts".to_owned()),
            query_ref: "SELECT * FROM daily".to_owned(),
            is_enabled: true,
            created_at: naive(100),
            updated_at: naive(200),
        }
    );
    assert_eq!(
        model_to_metric_summary(metric_row(1, ALICE, true)),
        MetricSummary {
            id: id(1),
            name: "metric 1".to_owned(),
            description: Some("what it counts".to_owned()),
        }
    );
}

#[test]
fn thresholds_and_columns_are_shown_field_by_field() {
    assert_eq!(
        model_to_threshold(threshold_row(11, 1, ALICE)),
        Threshold {
            id: id(11),
            insight_tenant_id: ALICE.insight_tenant_id,
            metric_id: id(1),
            field_name: "load".to_owned(),
            operator: "gt".to_owned(),
            value: double(0.5),
            level: "warning".to_owned(),
            created_at: naive(100),
            updated_at: naive(200),
        }
    );
    assert_eq!(
        model_to_column(column_row(22, Some(ALICE.insight_tenant_id), "daily")),
        TableColumn {
            id: id(22),
            insight_tenant_id: Some(ALICE.insight_tenant_id),
            clickhouse_table: "daily".to_owned(),
            field_name: "field 22".to_owned(),
            field_description: None,
        }
    );
}

#[test]
fn thresholds_are_valid_by_operator_and_level() {
    assert!(validate_threshold(&rules(), "gt", "critical"));
    assert!(!validate_threshold(&rules(), "eq", "critical"));
    assert!(!validate_threshold(&rules(), "gt", "info"));
    assert!(!validate_threshold(&rules(), "critical", "gt"));
    assert!(!validate_threshold(&rules(), "", ""));
}

// Metrics

#[test]
fn enabled_metrics_of_the_tenant_are_listed() {
    let mut db = Database::new();
    let outcome = db.run(list_metrics(&ALICE));
    assert_eq!(
        outcome,
        Ok(Response::MetricList(vec![MetricSummary {
            id: id(1),
            name: "metric 1".to_owned(),
            description: Some("what it counts".to_owned()),
        }]))
    );
    assert_eq!(listed_metrics(db.run(list_metrics(&BOB))), vec![id(3)]);
}

#[test]
fn a_metric_is_shown_to_its_tenant_only() {
    let mut db = Database::new();
    assert_eq!(shown_metric(db.run(get_metric(&ALICE, id(1)))).name, "metric 1");
    assert_eq!(db.run(get_metric(&BOB, id(1))), Err(StatusCode::NotFound));
    assert_eq!(db.run(get_metric(&ALICE, id(3))), Err(StatusCode::NotFound));
    assert_eq!(db.run(get_metric(&ALICE, id(99))), Err(StatusCode::NotFound));
}

#[test]
fn a_disabled_metric_is_shown_by_its_id() {
    let mut db = Database::new();
    assert!(!shown_metric(db.run(get_metric(&ALICE, id(2)))).is_enabled);
}

#[test]
fn a_new_metric_is_inserted_as_asked_for() {
    assert_eq!(
        insert_metric(&ALICE, id(7), new_metric("seven")),
        Step::Wait(Pending {
            ctx: ALICE,
            call: Call::InsertMetric(metrics::ActiveModel {
                id: ActiveValue::Assigned(id(7)),
                insight_tenant_id: ActiveValue::Assigned(ALICE.insight_tenant_id),
                name: ActiveValue::Assigned("seven".to_owned()),
                description: ActiveValue::Assigned(None),
                query_ref: ActiveValue::Assigned("SELECT 1".to_owned()),
                is_enabled: ActiveValue::Assigned(true),
                created_at: ActiveValue::NotSet,
                updated_at: ActiveValue::NotSet,
            }),
            stage: Stage::InsertMetric { id: id(7) },
        })
    );
}

#[test]
fn a_created_metric_is_read_back_and_listed() {
    let mut db = Database::new();
    let created = db.run(create_metric(&ALICE, new_metric("new")));
    let status = match &created {
        Ok(response) => response.status(),
        Err(status) => *status,
    };
    assert_eq!(status, StatusCode::Created);
    let metric = shown_metric(created);
    assert!(is_version_7(metric.id));
    assert_eq!(metric.insight_tenant_id, ALICE.insight_tenant_id);
    assert_eq!(metric.name, "new");
    assert_eq!(metric.description, None);
    assert_eq!(metric.query_ref, "SELECT 1");
    assert!(metric.is_enabled);
    assert_eq!(metric.created_at, naive(400));
    assert_eq!(listed_metrics(db.run(list_metrics(&ALICE))), vec![id(1), metric.id]);
    assert_eq!(db.run(get_metric(&BOB, metric.id)), Err(StatusCode::NotFound));
    let read = shown_metric(db.run(get_metric(&ALICE, metric.id)));
    assert_eq!(read, metric);
}

#[test]
fn created_metrics_get_different_ids() {
    let mut db = Database::new();
    let one = shown_metric(db.run(create_metric(&ALICE, new_metric("one")))).id;
    let other = shown_metric(db.run(create_metric(&ALICE, new_metric("other")))).id;
    assert_ne!(one, other);
}

#[test]
fn an_update_changes_what_it_names() {
    let mut db = Database::new();
    let change = UpdateMetricRequest {
        name: Some("renamed".to_owned()),
        is_enabled: Some(false),
        ..no_change()
    };
    let outcome = db.run(update_metric(&ALICE, id(1), change));
    assert_eq!(
        outcome,
        Ok(Response::Metric(Metric {
            name: "renamed".to_owned(),
            is_enabled: false,
            updated_at: naive(300),
            ..model_to_metric(metric_row(1, ALICE, true))
        }))
    );
    let read = db.run(get_metric(&ALICE, id(1)));
    assert_eq!(read, outcome);
}

#[test]
fn an_update_names_the_rest_as_unchanged() {
    let found = Reply::Metric(Some(metric_row(1, ALICE, true)));
    let change = UpdateMetricRequest {
        description: Some("other".to_owned()),
        query_ref: Some("SELECT 2".to_owned()),
        ..no_change()
    };
    let pending = match update_metric(&ALICE, id(1), change) {
        Step::Wait(pending) => pending,
        done => panic!("done: {:?}", done),
    };
    assert_eq!(
        pending.call,
        Call::OneMetric(MetricFilter {
            id: Some(id(1)),
            tenant: Some(ALICE.insight_tenant_id),
            enabled_only: false,
        })
    );
    assert_eq!(
        resume(&rules(), pending, found),
        Step::Wait(Pending {
            ctx: ALICE,
            call: Call::UpdateMetric(metrics::ActiveModel {
                id: ActiveValue::Unchanged(id(1)),
                insight_tenant_id: ActiveValue::Unchanged(ALICE.insight_tenant_id),
                name: ActiveValue::Unchanged("metric 1".to_owned()),
                description: ActiveValue::Assigned(Some("other".to_owned())),
                query_ref: ActiveValue::Assigned("SELECT 2".to_owned()),
                is_enabled: ActiveValue::Unchanged(true),
                created_at: ActiveValue::Unchanged(moment(100)),
                updated_at: ActiveValue::Unchanged(moment(200)),
            }),
            stage: Stage::UpdateMetric,
        })
    );
}

#[test]
fn an_empty_update_changes_nothing() {
    let mut db = Database::new();
    let metric = shown_metric(db.run(update_metric(&ALICE, id(1), no_change())));
    assert_eq!(
        metric,
        Metric { updated_at: naive(300), ..model_to_metric(metric_row(1, ALICE, true)) }
    );
}

#[test]
fn metrics_of_others_cannot_be_changed_or_deleted() {
    let mut db = Database::new();
    let change = UpdateMetricRequest { name: Some("mine".to_owned()), ..no_change() };
    assert_eq!(db.run(update_metric(&ALICE, id(3), change)), Err(StatusCode::NotFound));
    assert_eq!(db.run(delete_metric(&ALICE, id(3))), Err(StatusCode::NotFound));
    assert_eq!(db.metrics[2], metric_row(3, BOB, true));
    assert_eq!(db.metrics.len(), 3);
}

#[test]
fn a_deleted_metric_is_disabled_and_not_listed() {
    let mut db = Database::new();
    assert_eq!(db.run(delete_metric(&ALICE, id(1))), Ok(Response::NoContent));
    assert_eq!(listed_metrics(db.run(list_metrics(&ALICE))), vec![]);
    assert_eq!(db.run(query_metric(&ALICE, id(1), query(5))), Err(StatusCode::NotFound));
    let metric = shown_metric(db.run(get_metric(&ALICE, id(1))));
    assert_eq!(
        metric,
        Metric {
            is_enabled: false,
            updated_at: naive(300),
            ..model_to_metric(metric_row(1, ALICE, true))
        }
    );
}

#[test]
fn enabling_takes_deletion_back() {
    let mut db = Database::new();
    assert_eq!(db.run(delete_metric(&ALICE, id(1))), Ok(Response::NoContent));
    let change = UpdateMetricRequest { is_enabled: Some(true), ..no_change() };
    let metric = shown_metric(db.run(update_metric(&ALICE, id(1), change)));
    assert_eq!(
        metric,
        Metric { updated_at: naive(300), ..model_to_metric(metric_row(1, ALICE, true)) }
    );
    assert_eq!(listed_metrics(db.run(list_metrics(&ALICE))), vec![id(1)]);
}

#[test]
fn deleting_again_changes_nothing() {
    let mut db = Database::new();
    assert_eq!(db.run(delete_metric(&ALICE, id(1))), Ok(Response::NoContent));
    let once = shown_metric(db.run(get_metric(&ALICE, id(1))));
    assert_eq!(db.run(delete_metric(&ALICE, id(1))), Ok(Response::NoContent));
    assert_eq!(shown_metric(db.run(get_metric(&ALICE, id(1)))), once);
}

#[test]
fn a_deleted_metric_keeps_its_thresholds() {
    let mut db = Database::new();
    assert_eq!(db.run(delete_metric(&ALICE, id(1))), Ok(Response::NoContent));
    assert_eq!(listed_thresholds(db.run(list_thresholds(&ALICE, id(1)))), vec![id(11)]);
}

#[test]
fn a_repeated_update_changes_nothing() {
    let mut db = Database::new();
    let change = || UpdateMetricRequest { name: Some("renamed".to_owned()), ..no_change() };
    let once = shown_metric(db.run(update_metric(&ALICE, id(1), change())));
    let twice = shown_metric(db.run(update_metric(&ALICE, id(1), change())));
    assert_eq!(once, twice);
}

// Queries

#[test]
fn a_query_shows_its_statement() {
    let mut db = Database::new();
    let req = QueryRequest {
        filter: Some("metric_date ge '2026-01-01'".to_owned()),
        orderby: Some("load".to_owned()),
        top: 20,
    };
    let answer = match db.run(query_metric(&ALICE, id(1), req)) {
        Ok(Response::Query(answer)) => answer,
        other => panic!("no answer: {:?}", other),
    };
    assert_eq!(answer.page_info, PageInfo { has_next: false, cursor: None });
    assert_eq!(answer.items.len(), 1);
    let row = &answer.items[0];
    assert_eq!(row.len(), 4);
    assert_eq!(
        row.get("_debug_sql").and_then(Value::as_str),
        Some(
            "SELECT * FROM (SELECT * FROM daily) AS _q WHERE insight_tenant_id = ? \
             AND metric_date >= ? ORDER BY load LIMIT 21"
        )
    );
    assert_eq!(
        row.get("_debug_params"),
        Some(&Value::Array(vec![
            Value::String("00000000-0000-0000-0000-0000000000a1".to_owned()),
            Value::String("2026-01-01".to_owned()),
        ]))
    );
    assert_eq!(
        row.get("_note").and_then(Value::as_str),
        Some("query execution not yet implemented — need dynamic row deserialization")
    );
    assert_eq!(row.get("_thresholds"), Some(&Value::Object(serde_json::Map::new())));
    assert_eq!(db.calls.len(), 3);
}

#[test]
fn a_query_needs_an_enabled_metric_of_the_tenant() {
    let mut db = Database::new();
    assert_eq!(db.run(query_metric(&ALICE, id(2), query(5))), Err(StatusCode::NotFound));
    assert_eq!(db.run(query_metric(&ALICE, id(3), query(5))), Err(StatusCode::NotFound));
    assert_eq!(db.run(query_metric(&ALICE, id(4), query(5))), Err(StatusCode::NotFound));
    assert_eq!(db.calls.len(), 3);
}

#[test]
fn levels_come_from_the_verdicts() {
    let mut row = serde_json::Map::new();
    row.insert("load".to_owned(), Value::from(0.75));
    let lists = vec![vec![Some(Comparison {
        value: double(0.75),
        operator: "gt".to_owned(),
        against: double(0.5),
    })]];
    let pending = Pending {
        ctx: ALICE,
        call: Call::Compare(lists),
        stage: Stage::CompareWithThresholds {
            items: vec![row],
            thresholds: vec![threshold_row(11, 1, ALICE)],
        },
    };
    let answer = match resume(&rules(), pending, Reply::Verdicts(vec![vec![true]])) {
        Step::Done(Ok(Response::Query(answer))) => answer,
        other => panic!("no answer: {:?}", other),
    };
    let levels = answer.items[0].get("_thresholds").map(Value::to_string);
    assert_eq!(levels, Some("{\"load\":\"warning\"}".to_owned()));
}

// Thresholds

#[test]
fn thresholds_of_a_metric_are_listed() {
    let mut db = Database::new();
    assert_eq!(
        db.run(list_thresholds(&ALICE, id(1))),
        Ok(Response::ThresholdList(vec![model_to_threshold(threshold_row(11, 1, ALICE))]))
    );
    assert_eq!(listed_thresholds(db.run(list_thresholds(&ALICE, id(2)))), vec![id(12)]);
    assert_eq!(db.run(list_thresholds(&ALICE, id(3))), Err(StatusCode::NotFound));
    assert_eq!(db.run(list_thresholds(&ALICE, id(4))), Err(StatusCode::NotFound));
}

#[test]
fn a_new_threshold_is_inserted_as_asked_for() {
    assert_eq!(
        insert_threshold(&ALICE, id(1), id(17), new_threshold("lt", "good")),
        Step::Wait(Pending {
            ctx: ALICE,
            call: Call::InsertThreshold(thresholds::ActiveModel {
                id: ActiveValue::Assigned(id(17)),
                insight_tenant_id: ActiveValue::Assigned(ALICE.insight_tenant_id),
                metric_id: ActiveValue::Assigned(id(1)),
                field_name: ActiveValue::Assigned("load".to_owned()),
                operator: ActiveValue::Assigned("lt".to_owned()),
                value: ActiveValue::Assigned(double(0.25)),
                level: ActiveValue::Assigned("good".to_owned()),
                created_at: ActiveValue::NotSet,
                updated_at: ActiveValue::NotSet,
            }),
            stage: Stage::InsertThreshold { id: id(17) },
        })
    );
}

#[test]
fn a_created_threshold_is_listed() {
    let mut db = Database::new();
    let created = db.run(create_threshold(&ALICE, id(1), new_threshold("lt", "critical")));
    assert!(matches!(&created, Ok(response) if response.status() == StatusCode::Created));
    let threshold = shown_threshold(created);
    assert!(is_version_7(threshold.id));
    assert_eq!(threshold.insight_tenant_id, ALICE.insight_tenant_id);
    assert_eq!(threshold.metric_id, id(1));
    assert_eq!(threshold.field_name, "load");
    assert_eq!(threshold.operator, "lt");
    assert_eq!(threshold.value, double(0.25));
    assert_eq!(threshold.level, "critical");
    assert_eq!(
        listed_thresholds(db.run(list_thresholds(&ALICE, id(1)))),
        vec![id(11), threshold.id]
    );
}

#[test]
fn a_threshold_may_be_created_on_a_disabled_metric() {
    let mut db = Database::new();
    let created = db.run(create_threshold(&ALICE, id(2), new_threshold("gt", "good")));
    assert_eq!(shown_threshold(created).metric_id, id(2));
}

#[test]
fn invalid_thresholds_are_refused() {
    let mut db = Database::new();
    for (operator, level) in [("eq", "good"), ("gt", "info"), ("eq", "info")] {
        let outcome = db.run(create_threshold(&ALICE, id(1), new_threshold(operator, level)));
        assert_eq!(outcome, Err(StatusCode::BadRequest));
    }
    assert_eq!(db.thresholds.len(), 3);
}

#[test]
fn a_missing_metric_is_not_found_before_a_threshold_is_bad() {
    let mut db = Database::new();
    let outcome = db.run(create_threshold(&ALICE, id(3), new_threshold("eq", "info")));
    assert_eq!(outcome, Err(StatusCode::NotFound));
    let change = threshold_change(Some("eq"), None);
    let outcome = db.run(update_threshold(&ALICE, id(1), id(13), change));
    assert_eq!(outcome, Err(StatusCode::NotFound));
}

#[test]
fn a_threshold_changes_as_asked_for() {
    let mut db = Database::new();
    let change = UpdateThresholdRequest {
        field_name: Some("count".to_owned()),
        operator: Some("lt".to_owned()),
        value: Some(double(9.0)),
        level: Some("critical".to_owned()),
    };
    let threshold = shown_threshold(db.run(update_threshold(&ALICE, id(1), id(11), change)));
    assert_eq!(
        threshold,
        Threshold {
            field_name: "count".to_owned(),
            operator: "lt".to_owned(),
            value: double(9.0),
            level: "critical".to_owned(),
            updated_at: naive(300),
            ..model_to_threshold(threshold_row(11, 1, ALICE))
        }
    );
    assert_eq!(
        db.run(list_thresholds(&ALICE, id(1))),
        Ok(Response::ThresholdList(vec![threshold]))
    );
}

#[test]
fn invalid_changes_of_thresholds_are_refused() {
    let mut db = Database::new();
    let changes = [
        threshold_change(Some("eq"), None),
        threshold_change(None, Some("info")),
        threshold_change(Some("lt"), Some("info")),
    ];
    for change in changes {
        let outcome = db.run(update_threshold(&ALICE, id(1), id(11), change));
        assert_eq!(outcome, Err(StatusCode::BadRequest));
    }
    assert_eq!(db.thresholds[0], threshold_row(11, 1, ALICE));
}

#[test]
fn a_threshold_is_found_under_its_own_metric_only() {
    let mut db = Database::new();
    let change = threshold_change(None, Some("good"));
    let outcome = db.run(update_threshold(&ALICE, id(2), id(11), change));
    assert_eq!(outcome, Err(StatusCode::NotFound));
    assert_eq!(db.run(delete_threshold(&ALICE, id(2), id(11))), Err(StatusCode::NotFound));
    assert_eq!(db.run(delete_threshold(&ALICE, id(3), id(13))), Err(StatusCode::NotFound));
    assert_eq!(db.thresholds.len(), 3);
}

#[test]
fn a_deleted_threshold_is_gone() {
    let mut db = Database::new();
    assert_eq!(db.run(delete_threshold(&ALICE, id(1), id(11))), Ok(Response::NoContent));
    assert_eq!(listed_thresholds(db.run(list_thresholds(&ALICE, id(1)))), vec![]);
    assert_eq!(db.run(delete_threshold(&ALICE, id(1), id(11))), Err(StatusCode::NotFound));
    let change = threshold_change(None, Some("good"));
    let outcome = db.run(update_threshold(&ALICE, id(1), id(11), change));
    assert_eq!(outcome, Err(StatusCode::NotFound));
    assert_eq!(db.thresholds.len(), 2);
}

// Columns

#[test]
fn columns_are_own_or_shared() {
    let mut db = Database::new();
    assert_eq!(
        listed_columns(db.run(list_columns(&ALICE))),
        vec![id(21), id(22), id(24), id(25)]
    );
    assert_eq!(listed_columns(db.run(list_columns(&BOB))), vec![id(21), id(23), id(25)]);
}

#[test]
fn columns_of_one_table() {
    let mut db = Database::new();
    assert_eq!(
        listed_columns(db.run(list_columns_for_table(&ALICE, "daily".to_owned()))),
        vec![id(21), id(22)]
    );
    assert_eq!(
        listed_columns(db.run(list_columns_for_table(&BOB, "weekly".to_owned()))),
        vec![id(25)]
    );
    assert_eq!(
        listed_columns(db.run(list_columns_for_table(&BOB, "hourly".to_owned()))),
        vec![]
    );
}

// All requests

fn every_request() -> Vec<Step> {
    vec![
        list_metrics(&ALICE),
        get_metric(&ALICE, id(1)),
        create_metric(&ALICE, new_metric("new")),
        update_metric(&ALICE, id(1), no_change()),
        delete_metric(&ALICE, id(1)),
        query_metric(&ALICE, id(1), query(5)),
        list_thresholds(&ALICE, id(1)),
        create_threshold(&ALICE, id(1), new_threshold("gt", "good")),
        update_threshold(&ALICE, id(1), id(11), threshold_change(None, None)),
        delete_threshold(&ALICE, id(1), id(11)),
        list_columns(&ALICE),
        list_columns_for_table(&ALICE, "daily".to_owned()),
    ]
}

#[test]
fn every_request_goes_through_in_at_most_three_calls() {
    let counts: Vec<usize> = every_request()
        .into_iter()
        .map(|step| {
            let mut db = Database::new();
            let outcome = db.run(step);
            assert!(outcome.is_ok(), "{:?}", outcome);
            db.calls.len()
        })
        .collect();
    assert_eq!(counts, vec![1, 1, 2, 2, 2, 3, 2, 3, 2, 2, 1, 1]);
}

#[test]
fn a_failing_database_is_an_internal_error() {
    for call in 0..3usize {
        for step in every_request() {
            let mut db = Database::failing_at(call);
            let outcome = db.run(step);
            if db.calls.len() > call {
                assert_eq!(outcome, Err(StatusCode::InternalServerError));
                assert_eq!(db.calls.len(), call + 1);
            } else {
                assert!(outcome.is_ok());
            }
        }
    }
}

#[test]
fn a_new_row_that_is_not_there_is_an_internal_error() {
    let reading = |stage: Stage| Pending { ctx: ALICE, call: Call::Compare(vec![]), stage };
    assert_eq!(
        resume(&rules(), reading(Stage::ReadNewMetric), Reply::Metric(None)),
        Step::Done(Err(StatusCode::InternalServerError))
    );
    assert_eq!(
        resume(&rules(), reading(Stage::ReadNewThreshold), Reply::Threshold(None)),
        Step::Done(Err(StatusCode::InternalServerError))
    );
}

#[test]
fn a_reply_of_another_kind_is_an_internal_error() {
    for step in every_request() {
        if let Step::Wait(pending) = step {
            let step = resume(&rules(), pending, Reply::Verdicts(vec![]));
            assert_eq!(step, Step::Done(Err(StatusCode::InternalServerError)));
        }
    }
}

#[test]
fn requests_of_one_tenant_leave_the_other_alone() {
    let mut db = Database::new();
    for step in every_request() {
        let _ = db.run(step);
    }
    assert!(db.metrics.contains(&metric_row(3, BOB, true)));
    assert!(db.thresholds.contains(&threshold_row(13, 3, BOB)));
    assert_eq!(listed_metrics(db.run(list_metrics(&BOB))), vec![id(3)]);
    assert_eq!(listed_thresholds(db.run(list_thresholds(&BOB, id(3)))), vec![id(13)]);
}
