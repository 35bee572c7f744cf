//! What is said of a value is said of everything that it holds: views leave nothing out.

use vstd::prelude::*;

use crate::domain::metric::{
    CreateMetricRequest, Metric, MetricSummary, TableColumn, UpdateMetricRequest,
};
use crate::domain::query::{contents, PageInfo, QueryRequest, QueryResponse};
use crate::domain::threshold::{
    CreateThresholdRequest, Threshold, ThresholdRules, UpdateThresholdRequest,
};
use crate::entities::active_value::ActiveValue;
use crate::entities::{metrics, table_columns, thresholds};
use crate::handlers::healthy;
use crate::json::{entries, Field, Json, Object};
use crate::levels::{comparison_lists, comparison_views, verdict_lists, Comparison};
use crate::pending::{Pending, Stage, StageView, Step, StepView};
use crate::protocol::{
    Call, CallView, ColumnFilter, MetricFilter, Reply, ReplyView, ThresholdFilter,
};
use crate::response::{Response, ResponseView, StatusCode};
use crate::sql::MetricQuery;

verus! {

/// `seen` is the text, if there is one.
pub open spec fn sees_text(text: Option<String>, seen: Option<Seq<char>>) -> bool {
    match (text, seen) {
        (Some(inner), Some(chars)) => chars == inner@,
        (None, None) => true,
        _ => false,
    }
}

/// `seen` are the texts, one by one.
pub open spec fn sees_texts(strings: Seq<String>, seen: Seq<Seq<char>>) -> bool {
    &&& seen.len() == strings.len()
    &&& forall|i: int| 0 <= i < strings.len() ==> #[trigger] seen[i] == strings[i]@
}

/// `seen` says the same of a column of text.
pub open spec fn sees_column(column: ActiveValue<String>, seen: ActiveValue<Seq<char>>) -> bool {
    match (column, seen) {
        (ActiveValue::Assigned(text), ActiveValue::Assigned(chars)) => chars == text@,
        (ActiveValue::Unchanged(text), ActiveValue::Unchanged(chars)) => chars == text@,
        (ActiveValue::NotSet, ActiveValue::NotSet) => true,
        _ => false,
    }
}

/// `seen` says the same of a column of text that may be absent.
pub open spec fn sees_opt_column(
    column: ActiveValue<Option<String>>,
    seen: ActiveValue<Option<Seq<char>>>,
) -> bool {
    match (column, seen) {
        (ActiveValue::Assigned(text), ActiveValue::Assigned(chars)) => sees_text(text, chars),
        (ActiveValue::Unchanged(text), ActiveValue::Unchanged(chars)) => sees_text(text, chars),
        (ActiveValue::NotSet, ActiveValue::NotSet) => true,
        _ => false,
    }
}

/// Every column of a row, and of a row to be written, is seen.
pub proof fn law_views_of_metric_rows(row: metrics::Model, active: metrics::ActiveModel)
    ensures
        row@.id == row.id,
        row@.insight_tenant_id == row.insight_tenant_id,
        row@.name == row.name@,
        sees_text(row.description, row@.description),
        row@.query_ref == row.query_ref@,
        row@.is_enabled == row.is_enabled,
        row@.created_at == row.created_at,
        row@.updated_at == row.updated_at,
        active@.id == active.id,
        active@.insight_tenant_id == active.insight_tenant_id,
        sees_column(active.name, active@.name),
        sees_opt_column(active.description, active@.description),
        sees_column(active.query_ref, active@.query_ref),
        active@.is_enabled == active.is_enabled,
        active@.created_at == active.created_at,
        active@.updated_at == active.updated_at,
{
}

/// Every column of a row, and of a row to be written, is seen.
pub proof fn law_views_of_threshold_rows(row: thresholds::Model, active: thresholds::ActiveModel)
    ensures
        row@.id == row.id,
        row@.insight_tenant_id == row.insight_tenant_id,
        row@.metric_id == row.metric_id,
        row@.field_name == row.field_name@,
        row@.operator == row.operator@,
        row@.value == row.value,
        row@.level == row.level@,
        row@.created_at == row.created_at,
        row@.updated_at == row.updated_at,
        active@.id == active.id,
        active@.insight_tenant_id == active.insight_tenant_id,
        active@.metric_id == active.metric_id,
        sees_column(active.field_name, active@.field_name),
        sees_column(active.operator, active@.operator),
        active@.value == active.value,
        sees_column(active.level, active@.level),
        active@.created_at == active.created_at,
        active@.updated_at == active.updated_at,
{
}

/// Every column of a row is seen.
pub proof fn law_views_of_column_rows(row: table_columns::Model)
    ensures
        row@.id == row.id,
        row@.insight_tenant_id == row.insight_tenant_id,
        row@.clickhouse_table == row.clickhouse_table@,
        row@.field_name == row.field_name@,
        sees_text(row.field_description, row@.field_description),
{
}

/// Every row of a list is seen, in order.
pub proof fn law_views_of_lists_of_rows(
    some_metrics: Seq<metrics::Model>,
    some_thresholds: Seq<thresholds::Model>,
    some_columns: Seq<table_columns::Model>,
)
    ensures
        metrics::rows(some_metrics).len() == some_metrics.len(),
        forall|i: int|
            0 <= i < some_metrics.len() ==> #[trigger] metrics::rows(some_metrics)[i]
                == some_metrics[i]@,
        thresholds::rows(some_thresholds).len() == some_thresholds.len(),
        forall|i: int|
            0 <= i < some_thresholds.len() ==> #[trigger] thresholds::rows(some_thresholds)[i]
                == some_thresholds[i]@,
        table_columns::rows(some_columns).len() == some_columns.len(),
        forall|i: int|
            0 <= i < some_columns.len() ==> #[trigger] table_columns::rows(some_columns)[i]
                == some_columns[i]@,
{
}

/// All that is shown of metrics and table columns is seen.
pub proof fn law_views_of_metrics(metric: Metric, summary: MetricSummary, column: TableColumn)
    ensures
        metric@.id == metric.id,
        metric@.insight_tenant_id == metric.insight_tenant_id,
        metric@.name == metric.name@,
        sees_text(metric.description, metric@.description),
        metric@.query_ref == metric.query_ref@,
        metric@.is_enabled == metric.is_enabled,
        metric@.created_at == metric.created_at,
        metric@.updated_at == metric.updated_at,
        summary@.id == summary.id,
        summary@.name == summary.name@,
        sees_text(summary.description, summary@.description),
        column@.id == column.id,
        column@.insight_tenant_id == column.insight_tenant_id,
        column@.clickhouse_table == column.clickhouse_table@,
        column@.field_name == column.field_name@,
        sees_text(column.field_description, column@.field_description),
{
}

/// All that is shown of a threshold is seen.
pub proof fn law_views_of_thresholds(threshold: Threshold)
    ensures
        threshold@.id == threshold.id,
        threshold@.insight_tenant_id == threshold.insight_tenant_id,
        threshold@.metric_id == threshold.metric_id,
        threshold@.field_name == threshold.field_name@,
        threshold@.operator == threshold.operator@,
        threshold@.value == threshold.value,
        threshold@.level == threshold.level@,
        threshold@.created_at == threshold.created_at,
        threshold@.updated_at == threshold.updated_at,
{
}

/// All that a request names is seen.
pub proof fn law_views_of_request_bodies(
    create_metric: CreateMetricRequest,
    update_metric: UpdateMetricRequest,
    query: QueryRequest,
    create_threshold: CreateThresholdRequest,
    update_threshold: UpdateThresholdRequest,
    rules: ThresholdRules,
)
    ensures
        create_metric@.name == create_metric.name@,
        sees_text(create_metric.description, create_metric@.description),
        create_metric@.query_ref == create_metric.query_ref@,
        sees_text(update_metric.name, update_metric@.name),
        sees_text(update_metric.description, update_metric@.description),
        sees_text(update_metric.query_ref, update_metric@.query_ref),
        update_metric@.is_enabled == update_metric.is_enabled,
        sees_text(query.filter, query@.filter),
        sees_text(query.orderby, query@.orderby),
        query@.top == query.top,
        create_threshold@.field_name == create_threshold.field_name@,
        create_threshold@.operator == create_threshold.operator@,
        create_threshold@.value == create_threshold.value,
        create_threshold@.level == create_threshold.level@,
        sees_text(update_threshold.field_name, update_threshold@.field_name),
        sees_text(update_threshold.operator, update_threshold@.operator),
        update_threshold@.value == update_threshold.value,
        sees_text(update_threshold.level, update_threshold@.level),
        sees_texts(rules.operators@, rules@.operators),
        sees_texts(rules.levels@, rules@.levels),
{
}

/// All of a query, of its answer and of a field of a row is seen.
pub proof fn law_views_of_queries(
    query: MetricQuery,
    answer: QueryResponse,
    page: PageInfo,
    items: Seq<Object>,
    text: String,
    list: Vec<String>,
    object: Object,
)
    ensures
        query@.sql == query.sql@,
        sees_texts(query.params@, query@.params),
        answer@.items == contents(answer.items@),
        answer@.page_info == answer.page_info@,
        page@.has_next == page.has_next,
        sees_text(page.cursor, page@.cursor),
        contents(items).len() == items.len(),
        forall|i: int| 0 <= i < items.len() ==> #[trigger] contents(items)[i] == entries(items[i]),
        Field::Text(text)@ == Json::Text(text@),
        Field::Texts(list)@ matches Json::Array(seen) && seen.len() == list@.len() && forall|i: int|
            0 <= i < seen.len() ==> #[trigger] seen[i] == Json::Text(list@[i]@),
        Field::Object(object)@ == Json::Object(entries(object)),
{
}

/// All of comparisons and of their verdicts is seen, one by one.
pub proof fn law_views_of_comparisons(
    comparison: Comparison,
    list: Seq<Option<Comparison>>,
    lists: Seq<Vec<Option<Comparison>>>,
    verdicts: Seq<Vec<bool>>,
)
    ensures
        comparison@.value == comparison.value,
        comparison@.operator == comparison.operator@,
        comparison@.against == comparison.against,
        comparison_views(list).len() == list.len(),
        forall|i: int|
            0 <= i < list.len() ==> match (list[i], #[trigger] comparison_views(list)[i]) {
                (Some(one), Some(seen)) => seen == one@,
                (None, None) => true,
                _ => false,
            },
        comparison_lists(lists).len() == lists.len(),
        forall|r: int|
            0 <= r < lists.len() ==> #[trigger] comparison_lists(lists)[r] == comparison_views(
                lists[r]@,
            ),
        verdict_lists(verdicts).len() == verdicts.len(),
        forall|r: int|
            0 <= r < verdicts.len() ==> #[trigger] verdict_lists(verdicts)[r] == verdicts[r]@,
{
}

/// A call is seen as what it asks for.
pub proof fn law_views_of_calls(call: Call, filter: ColumnFilter)
    ensures
        sees_text(filter.table, filter@.table),
        filter@.tenant == filter.tenant,
        match call {
            Call::AllMetrics(filter) => call@ == CallView::AllMetrics(filter),
            Call::OneMetric(filter) => call@ == CallView::OneMetric(filter),
            Call::InsertMetric(row) => call@ == CallView::InsertMetric(row@),
            Call::UpdateMetric(row) => call@ == CallView::UpdateMetric(row@),
            Call::AllThresholds(filter) => call@ == CallView::AllThresholds(filter),
            Call::OneThreshold(filter) => call@ == CallView::OneThreshold(filter),
            Call::InsertThreshold(row) => call@ == CallView::InsertThreshold(row@),
            Call::UpdateThreshold(row) => call@ == CallView::UpdateThreshold(row@),
            Call::DeleteThreshold(id) => call@ == CallView::DeleteThreshold(id),
            Call::AllColumns(filter) => call@ == CallView::AllColumns(filter@),
            Call::Compare(lists) => call@ == CallView::Compare(comparison_lists(lists@)),
        },
{
}

/// A reply is seen as what it brings.
pub proof fn law_views_of_replies(reply: Reply)
    ensures
        match reply {
            Reply::Failed => reply@ == ReplyView::Failed,
            Reply::Metrics(list) => reply@ == ReplyView::Metrics(metrics::rows(list@)),
            Reply::Metric(Some(row)) => reply@ == ReplyView::Metric(Some(row@)),
            Reply::Metric(None) => reply@ == ReplyView::Metric(None),
            Reply::UpdatedMetric(row) => reply@ == ReplyView::UpdatedMetric(row@),
            Reply::Thresholds(list) => reply@ == ReplyView::Thresholds(thresholds::rows(list@)),
            Reply::Threshold(Some(row)) => reply@ == ReplyView::Threshold(Some(row@)),
            Reply::Threshold(None) => reply@ == ReplyView::Threshold(None),
            Reply::UpdatedThreshold(row) => reply@ == ReplyView::UpdatedThreshold(row@),
            Reply::Columns(list) => reply@ == ReplyView::Columns(table_columns::rows(list@)),
            Reply::Done => reply@ == ReplyView::Done,
            Reply::Verdicts(lists) => reply@ == ReplyView::Verdicts(verdict_lists(lists@)),
        },
{
}

/// An answer is seen as what it shows, entry by entry.
pub proof fn law_views_of_answers(response: Response)
    ensures
        match (response, response@) {
            (Response::MetricList(list), ResponseView::MetricList(seen)) => {
                &&& seen.len() == list@.len()
                &&& forall|i: int| 0 <= i < seen.len() ==> #[trigger] seen[i] == list@[i]@
            },
            (Response::Metric(metric), ResponseView::Metric(seen)) => seen == metric@,
            (Response::CreatedMetric(metric), ResponseView::CreatedMetric(seen)) => seen
                == metric@,
            (Response::Query(answer), ResponseView::Query(seen)) => seen == answer@,
            (Response::ThresholdList(list), ResponseView::ThresholdList(seen)) => {
                &&& seen.len() == list@.len()
                &&& forall|i: int| 0 <= i < seen.len() ==> #[trigger] seen[i] == list@[i]@
            },
            (Response::Threshold(threshold), ResponseView::Threshold(seen)) => seen == threshold@,
            (Response::CreatedThreshold(threshold), ResponseView::CreatedThreshold(seen)) => seen
                == threshold@,
            (Response::ColumnList(list), ResponseView::ColumnList(seen)) => {
                &&& seen.len() == list@.len()
                &&& forall|i: int| 0 <= i < seen.len() ==> #[trigger] seen[i] == list@[i]@
            },
            (Response::NoContent, ResponseView::NoContent) => true,
            _ => false,
        },
{
}

/// A request on its way is seen with its tenant, its call and its stage, and an end with
/// its outcome.
pub proof fn law_views_of_steps(step: Step, pending: Pending)
    ensures
        pending@.ctx == pending.ctx,
        pending@.call == pending.call@,
        pending@.stage == pending.stage@,
        match step {
            Step::Wait(pending) => step@ == StepView::Wait(pending@),
            Step::Done(Ok(response)) => step@ == StepView::Done(Ok(response@)),
            Step::Done(Err(status)) => step@ == StepView::Done(Err(status)),
        },
{
}

/// A stage is seen with all that the request keeps in mind.
pub proof fn law_views_of_stages(stage: Stage)
    ensures
        match (stage, stage@) {
            (Stage::ListMetrics, StageView::ListMetrics) => true,
            (Stage::GetMetric, StageView::GetMetric) => true,
            (Stage::InsertMetric { id }, StageView::InsertMetric { id: seen }) => seen == id,
            (Stage::ReadNewMetric, StageView::ReadNewMetric) => true,
            (Stage::FindMetricToUpdate { req }, StageView::FindMetricToUpdate { req: seen }) => seen
                == req@,
            (Stage::UpdateMetric, StageView::UpdateMetric) => true,
            (Stage::FindMetricToDelete, StageView::FindMetricToDelete) => true,
            (Stage::DisableMetric, StageView::DisableMetric) => true,
            (
                Stage::FindMetricToQuery { id, req },
                StageView::FindMetricToQuery { id: seen_id, req: seen },
            ) => seen_id == id && seen == req@,
            (
                Stage::FindThresholdsToQuery { query_ref, req },
                StageView::FindThresholdsToQuery { query_ref: seen_ref, req: seen },
            ) => seen_ref == query_ref@ && seen == req@,
            (
                Stage::CompareWithThresholds { items, thresholds },
                StageView::CompareWithThresholds { items: seen_items, thresholds: seen },
            ) => seen_items == contents(items@) && seen == thresholds::rows(thresholds@),
            (
                Stage::FindMetricOfThresholds { metric_id },
                StageView::FindMetricOfThresholds { metric_id: seen },
            ) => seen == metric_id,
            (Stage::ListThresholds, StageView::ListThresholds) => true,
            (
                Stage::FindMetricOfNewThreshold { metric_id, req },
                StageView::FindMetricOfNewThreshold { metric_id: seen_id, req: seen },
            ) => seen_id == metric_id && seen == req@,
            (Stage::InsertThreshold { id }, StageView::InsertThreshold { id: seen }) => seen == id,
            (Stage::ReadNewThreshold, StageView::ReadNewThreshold) => true,
            (
                Stage::FindThresholdToUpdate { req },
                StageView::FindThresholdToUpdate { req: seen },
            ) => seen == req@,
            (Stage::UpdateThreshold, StageView::UpdateThreshold) => true,
            (Stage::FindThresholdToDelete, StageView::FindThresholdToDelete) => true,
            (Stage::DeleteThreshold, StageView::DeleteThreshold) => true,
            (Stage::ListColumns, StageView::ListColumns) => true,
            _ => false,
        },
{
}

/// What is created is answered with 201, what is without content with 204, everything
/// else that goes through with 200; bad requests with 400, what is not found with 404,
/// and failures with 500.
pub proof fn law_status_codes(response: ResponseView)
    ensures
        response.status().number() == (if response is CreatedMetric
            || response is CreatedThreshold {
            201
        } else if response is NoContent {
            204
        } else {
            200int
        }),
        StatusCode::BadRequest.number() == 400,
        StatusCode::NotFound.number() == 404,
        StatusCode::InternalServerError.number() == 500,
        StatusCode::Success.number() == 200,
        StatusCode::Created.number() == 201,
        StatusCode::NoContent.number() == 204,
{
}

/// The health endpoint says that the status is healthy, and nothing else.
pub proof fn law_health_is_the_status(key: Seq<char>)
    ensures
        healthy().contains_key(key) <==> key == "status"@,
        healthy()["status"@] == Json::Text("healthy"@),
{
}

/// A threshold may have an operator and a level if and only if both are listed.
pub proof fn law_rules_are_lists(rules: ThresholdRules, operator: Seq<char>, level: Seq<char>)
    ensures
        rules@.allow(operator, level) <==> {
            &&& exists|i: int|
                0 <= i < rules.operators@.len() && (#[trigger] rules.operators@[i])@ == operator
            &&& exists|i: int|
                0 <= i < rules.levels@.len() && (#[trigger] rules.levels@[i])@ == level
        },
{
    if rules@.operators.contains(operator) {
        let i = choose|i: int|
            0 <= i < rules@.operators.len() && rules@.operators[i] == operator;
        assert(rules.operators@[i]@ == operator);
    }
    if rules@.levels.contains(level) {
        let i = choose|i: int| 0 <= i < rules@.levels.len() && rules@.levels[i] == level;
        assert(rules.levels@[i]@ == level);
    }
    assert forall|i: int|
        0 <= i < rules.operators@.len() && (#[trigger] rules.operators@[i])@
            == operator implies rules@.operators.contains(operator) by {
        assert(rules@.operators[i] == operator);
    }
    assert forall|i: int|
        0 <= i < rules.levels@.len() && (#[trigger] rules.levels@[i])@
            == level implies rules@.levels.contains(level) by {
        assert(rules@.levels[i] == level);
    }
}

/// A filter selects what meets each of its conditions.
pub proof fn law_filters_select_by_their_conditions(
    metric_filter: MetricFilter,
    metric: metrics::Row,
    threshold_filter: ThresholdFilter,
    threshold: thresholds::Row,
    column_filter: ColumnFilter<Seq<char>>,
    column: table_columns::Row,
)
    ensures
        metric_filter.selects(metric) <==> {
            &&& metric_filter.id is None || metric_filter.id->0 == metric.id
            &&& metric_filter.tenant is None || metric_filter.tenant->0 == metric.insight_tenant_id
            &&& !metric_filter.enabled_only || metric.is_enabled
        },
        threshold_filter.selects(threshold) <==> {
            &&& threshold_filter.id is None || threshold_filter.id->0 == threshold.id
            &&& threshold_filter.metric_id is None || threshold_filter.metric_id->0
                == threshold.metric_id
            &&& threshold_filter.tenant is None || threshold_filter.tenant->0
                == threshold.insight_tenant_id
        },
        column_filter.selects(column) <==> {
            &&& column_filter.table is None || column_filter.table->0 == column.clickhouse_table
            &&& column.insight_tenant_id is None || column.insight_tenant_id->0
                == column_filter.tenant
        },
{
}

} // verus!
