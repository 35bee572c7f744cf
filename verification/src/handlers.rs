//! The endpoints: how each request begins, and how it goes on from reply to reply.
//!
//! A request is a sequence of calls. The function named after an endpoint says how
//! it begins, and `resume` says, for each stage and each reply, how it goes on. The
//! caller performs `Pending::call` and hands the reply to `resume` until the request
//! is done.

use vstd::prelude::*;

use crate::auth::SecurityContext;
use crate::domain::metric::{CreateMetricRequest, UpdateMetricRequest};
use crate::domain::query::{
    contents, PageInfo, QueryRequest, QueryResponse, QueryResponseView,
};
use crate::domain::threshold::{
    validate_threshold, CreateThresholdRequest, ThresholdRules, ThresholdRulesView,
    UpdateThresholdRequest,
};
use crate::entities::active_value::ActiveValue;
use crate::entities::{metrics, thresholds};
use crate::ids::{is_version_7, new_id, Uuid};
use crate::json::{empty_object, entries, insert, Entries, Field, Json, Object};
use crate::levels::{all_comparisons, all_with_levels, evaluate_items, items_comparisons};
use crate::mappers::{
    column_list, columns_of, metric_of, metric_summaries, model_to_metric, model_to_threshold,
    summaries_of, threshold_list, threshold_of, thresholds_of,
};
use crate::pending::{Pending, PendingView, Stage, StageView, Step, StepView};
use crate::protocol::{
    Call, CallView, ColumnFilter, MetricFilter, Reply, ReplyView, ThresholdFilter,
};
use crate::response::{Response, ResponseView, StatusCode};
use crate::sql::{build_query, metric_query, MetricQuery, MetricQueryView};

verus! {

// ---------------------------------------------------------------------------
// Rows to be written
// ---------------------------------------------------------------------------

/// A column that is written if there is a new value, and else stays.
pub open spec fn assigned_or<T>(new: Option<T>, held: T) -> ActiveValue<T> {
    match new {
        Some(value) => ActiveValue::Assigned(value),
        None => ActiveValue::Unchanged(held),
    }
}

/// The row of a new metric: enabled, with its times left to the database.
pub open spec fn new_metric<S>(
    ctx: SecurityContext,
    id: Uuid,
    req: CreateMetricRequest<S>,
) -> metrics::ActiveModel<S> {
    metrics::ActiveModel {
        id: ActiveValue::Assigned(id),
        insight_tenant_id: ActiveValue::Assigned(ctx.insight_tenant_id),
        name: ActiveValue::Assigned(req.name),
        description: ActiveValue::Assigned(req.description),
        query_ref: ActiveValue::Assigned(req.query_ref),
        is_enabled: ActiveValue::Assigned(true),
        created_at: ActiveValue::NotSet,
        updated_at: ActiveValue::NotSet,
    }
}

/// The row of a metric with what a request changes. A description can be replaced
/// but not taken away.
pub open spec fn changed_metric<S>(
    row: metrics::Model<S>,
    req: UpdateMetricRequest<S>,
) -> metrics::ActiveModel<S> {
    metrics::ActiveModel {
        name: assigned_or(req.name, row.name),
        description: match req.description {
            Some(text) => ActiveValue::Assigned(Some(text)),
            None => ActiveValue::Unchanged(row.description),
        },
        query_ref: assigned_or(req.query_ref, row.query_ref),
        is_enabled: assigned_or(req.is_enabled, row.is_enabled),
        ..row.unchanged()
    }
}

/// The row of a metric, disabled.
pub open spec fn disabled_metric<S>(row: metrics::Model<S>) -> metrics::ActiveModel<S> {
    metrics::ActiveModel { is_enabled: ActiveValue::Assigned(false), ..row.unchanged() }
}

/// The row of a new threshold, with its times left to the database.
pub open spec fn new_threshold<S>(
    ctx: SecurityContext,
    metric_id: Uuid,
    id: Uuid,
    req: CreateThresholdRequest<S>,
) -> thresholds::ActiveModel<S> {
    thresholds::ActiveModel {
        id: ActiveValue::Assigned(id),
        insight_tenant_id: ActiveValue::Assigned(ctx.insight_tenant_id),
        metric_id: ActiveValue::Assigned(metric_id),
        field_name: ActiveValue::Assigned(req.field_name),
        operator: ActiveValue::Assigned(req.operator),
        value: ActiveValue::Assigned(req.value),
        level: ActiveValue::Assigned(req.level),
        created_at: ActiveValue::NotSet,
        updated_at: ActiveValue::NotSet,
    }
}

/// The row of a threshold with what a request changes.
pub open spec fn changed_threshold<S>(
    row: thresholds::Model<S>,
    req: UpdateThresholdRequest<S>,
) -> thresholds::ActiveModel<S> {
    thresholds::ActiveModel {
        field_name: assigned_or(req.field_name, row.field_name),
        operator: assigned_or(req.operator, row.operator),
        value: assigned_or(req.value, row.value),
        level: assigned_or(req.level, row.level),
        ..row.unchanged()
    }
}

/// What a request changes of a threshold is an operator and a level that a
/// threshold may have.
pub open spec fn change_is_valid(
    rules: ThresholdRulesView,
    req: UpdateThresholdRequest<Seq<char>>,
) -> bool {
    &&& req.operator matches Some(operator) ==> rules.operators.contains(operator)
    &&& req.level matches Some(level) ==> rules.levels.contains(level)
}

/// The row of a metric with what a request changes.
fn change_metric(row: metrics::Model, req: UpdateMetricRequest) -> (active: metrics::ActiveModel)
    ensures
        active@ == changed_metric(row@, req@),
{
    let mut active = row.into_active_model();
    if let Some(name) = req.name {
        active.name = ActiveValue::Assigned(name);
    }
    if let Some(description) = req.description {
        active.description = ActiveValue::Assigned(Some(description));
    }
    if let Some(query_ref) = req.query_ref {
        active.query_ref = ActiveValue::Assigned(query_ref);
    }
    if let Some(is_enabled) = req.is_enabled {
        active.is_enabled = ActiveValue::Assigned(is_enabled);
    }
    active
}

/// The row of a metric, disabled.
fn disable_metric(row: metrics::Model) -> (active: metrics::ActiveModel)
    ensures
        active@ == disabled_metric(row@),
{
    let mut active = row.into_active_model();
    active.is_enabled = ActiveValue::Assigned(false);
    active
}

/// The row of a threshold with what a request changes; refused where the operator
/// or the level is none that a threshold may have.
fn change_threshold(
    rules: &ThresholdRules,
    row: thresholds::Model,
    req: UpdateThresholdRequest,
) -> (active: Result<thresholds::ActiveModel, StatusCode>)
    ensures
        match active {
            Ok(changed) => change_is_valid(rules@, req@) && changed@ == changed_threshold(
                row@,
                req@,
            ),
            Err(status) => !change_is_valid(rules@, req@) && status == StatusCode::BadRequest,
        },
{
    let mut active = row.into_active_model();
    if let Some(field_name) = req.field_name {
        active.field_name = ActiveValue::Assigned(field_name);
    }
    if let Some(operator) = req.operator {
        if !rules.has_operator(operator.as_str()) {
            return Err(StatusCode::BadRequest);
        }
        active.operator = ActiveValue::Assigned(operator);
    }
    if let Some(value) = req.value {
        active.value = ActiveValue::Assigned(value);
    }
    if let Some(level) = req.level {
        if !rules.has_level(level.as_str()) {
            return Err(StatusCode::BadRequest);
        }
        active.level = ActiveValue::Assigned(level);
    }
    Ok(active)
}

// ---------------------------------------------------------------------------
// Health and query rows
// ---------------------------------------------------------------------------

/// What the health endpoint says.
pub open spec fn healthy() -> Entries {
    Entries::empty().insert("status"@, Json::Text("healthy"@))
}

/// Says that the service is up.
pub fn health() -> (body: Object)
    ensures
        entries(body) == healthy(),
{
    let mut body = empty_object();
    insert(&mut body, "status".to_owned(), Field::Text("healthy".to_owned()));
    body
}

/// The row that stands for the result of a query: the statement, its parameters and
/// a note.
pub open spec fn debug_item(query: MetricQueryView) -> Entries {
    Entries::empty().insert("_debug_sql"@, Json::Text(query.sql)).insert(
        "_debug_params"@,
        Json::Array(query.params.map_values(|t: Seq<char>| Json::Text(t))),
    ).insert(
        "_note"@,
        Json::Text(
            "query execution not yet implemented — need dynamic row deserialization"@,
        ),
    )
}

/// The rows that a query results in: one that shows the query.
fn query_items(query: MetricQuery) -> (items: Vec<Object>)
    ensures
        contents(items@) == seq![debug_item(query@)],
{
    let mut item = empty_object();
    insert(&mut item, "_debug_sql".to_owned(), Field::Text(query.sql));
    insert(&mut item, "_debug_params".to_owned(), Field::Texts(query.params));
    insert(
        &mut item,
        "_note".to_owned(),
        Field::Text(
            "query execution not yet implemented — need dynamic row deserialization".to_owned(),
        ),
    );
    let mut items: Vec<Object> = Vec::new();
    items.push(item);
    assert(contents(items@) =~= seq![debug_item(query@)]);
    items
}

/// The answer to a query: the rows, on a page that has none after it.
pub open spec fn single_page(items: Seq<Entries>) -> QueryResponseView {
    QueryResponseView { items, page_info: PageInfo { has_next: false, cursor: None } }
}

// ---------------------------------------------------------------------------
// How requests begin
// ---------------------------------------------------------------------------

/// The request waits for the reply to `call`.
pub open spec fn waits(ctx: SecurityContext, call: CallView, stage: StageView) -> StepView {
    StepView::Wait(PendingView { ctx, call, stage })
}

/// The metric of that id that belongs to the tenant.
pub open spec fn own_metric(ctx: SecurityContext, id: Uuid) -> MetricFilter {
    MetricFilter { id: Some(id), tenant: Some(ctx.insight_tenant_id), enabled_only: false }
}

/// The thresholds of a metric that belong to the tenant.
pub open spec fn own_thresholds(ctx: SecurityContext, metric_id: Uuid) -> ThresholdFilter {
    ThresholdFilter {
        id: None,
        metric_id: Some(metric_id),
        tenant: Some(ctx.insight_tenant_id),
    }
}

/// The threshold of that id and that metric that belongs to the tenant.
pub open spec fn own_threshold(
    ctx: SecurityContext,
    metric_id: Uuid,
    tid: Uuid,
) -> ThresholdFilter {
    ThresholdFilter {
        id: Some(tid),
        metric_id: Some(metric_id),
        tenant: Some(ctx.insight_tenant_id),
    }
}

/// How a request for the enabled metrics of a tenant begins.
pub open spec fn list_metrics_begins(ctx: SecurityContext) -> StepView {
    waits(
        ctx,
        CallView::AllMetrics(
            MetricFilter { id: None, tenant: Some(ctx.insight_tenant_id), enabled_only: true },
        ),
        StageView::ListMetrics,
    )
}

/// How a request for a metric begins.
pub open spec fn get_metric_begins(ctx: SecurityContext, id: Uuid) -> StepView {
    waits(ctx, CallView::OneMetric(own_metric(ctx, id)), StageView::GetMetric)
}

/// How a request to create a metric begins, once the metric has an id.
pub open spec fn create_metric_begins(
    ctx: SecurityContext,
    id: Uuid,
    req: CreateMetricRequest<Seq<char>>,
) -> StepView {
    waits(ctx, CallView::InsertMetric(new_metric(ctx, id, req)), StageView::InsertMetric { id })
}

/// How a request to change a metric begins.
pub open spec fn update_metric_begins(
    ctx: SecurityContext,
    id: Uuid,
    req: UpdateMetricRequest<Seq<char>>,
) -> StepView {
    waits(ctx, CallView::OneMetric(own_metric(ctx, id)), StageView::FindMetricToUpdate { req })
}

/// How a request to delete a metric begins.
pub open spec fn delete_metric_begins(ctx: SecurityContext, id: Uuid) -> StepView {
    waits(ctx, CallView::OneMetric(own_metric(ctx, id)), StageView::FindMetricToDelete)
}

/// How a query of a metric begins.
pub open spec fn query_metric_begins(
    ctx: SecurityContext,
    id: Uuid,
    req: QueryRequest<Seq<char>>,
) -> StepView {
    waits(
        ctx,
        CallView::OneMetric(MetricFilter { enabled_only: true, ..own_metric(ctx, id) }),
        StageView::FindMetricToQuery { id, req },
    )
}

/// How a request for the thresholds of a metric begins.
pub open spec fn list_thresholds_begins(ctx: SecurityContext, metric_id: Uuid) -> StepView {
    waits(
        ctx,
        CallView::OneMetric(own_metric(ctx, metric_id)),
        StageView::FindMetricOfThresholds { metric_id },
    )
}

/// How a request to create a threshold begins.
pub open spec fn create_threshold_begins(
    ctx: SecurityContext,
    metric_id: Uuid,
    req: CreateThresholdRequest<Seq<char>>,
) -> StepView {
    waits(
        ctx,
        CallView::OneMetric(own_metric(ctx, metric_id)),
        StageView::FindMetricOfNewThreshold { metric_id, req },
    )
}

/// How a request to change a threshold begins.
pub open spec fn update_threshold_begins(
    ctx: SecurityContext,
    metric_id: Uuid,
    tid: Uuid,
    req: UpdateThresholdRequest<Seq<char>>,
) -> StepView {
    waits(
        ctx,
        CallView::OneThreshold(own_threshold(ctx, metric_id, tid)),
        StageView::FindThresholdToUpdate { req },
    )
}

/// How a request to delete a threshold begins.
pub open spec fn delete_threshold_begins(
    ctx: SecurityContext,
    metric_id: Uuid,
    tid: Uuid,
) -> StepView {
    waits(
        ctx,
        CallView::OneThreshold(own_threshold(ctx, metric_id, tid)),
        StageView::FindThresholdToDelete,
    )
}

/// How a request for table columns begins, of one table or of all.
pub open spec fn list_columns_begins(ctx: SecurityContext, table: Option<Seq<char>>) -> StepView {
    waits(
        ctx,
        CallView::AllColumns(ColumnFilter { table, tenant: ctx.insight_tenant_id }),
        StageView::ListColumns,
    )
}

/// Lists the enabled metrics of the tenant.
pub fn list_metrics(ctx: &SecurityContext) -> (step: Step)
    ensures
        step@ == list_metrics_begins(*ctx),
{
    Step::Wait(
        Pending {
            ctx: *ctx,
            call: Call::AllMetrics(
                MetricFilter { id: None, tenant: Some(ctx.insight_tenant_id), enabled_only: true },
            ),
            stage: Stage::ListMetrics,
        },
    )
}

/// The request for one metric of the tenant by its id.
fn find_own_metric(ctx: &SecurityContext, id: Uuid, enabled_only: bool, stage: Stage) -> (step:
    Step)
    ensures
        step@ == waits(
            *ctx,
            CallView::OneMetric(MetricFilter { enabled_only, ..own_metric(*ctx, id) }),
            stage@,
        ),
{
    Step::Wait(
        Pending {
            ctx: *ctx,
            call: Call::OneMetric(
                MetricFilter { id: Some(id), tenant: Some(ctx.insight_tenant_id), enabled_only },
            ),
            stage,
        },
    )
}

/// The request for one threshold of the tenant by its metric and its id.
fn find_own_threshold(ctx: &SecurityContext, metric_id: Uuid, tid: Uuid, stage: Stage) -> (step:
    Step)
    ensures
        step@ == waits(
            *ctx,
            CallView::OneThreshold(own_threshold(*ctx, metric_id, tid)),
            stage@,
        ),
{
    Step::Wait(
        Pending {
            ctx: *ctx,
            call: Call::OneThreshold(
                ThresholdFilter {
                    id: Some(tid),
                    metric_id: Some(metric_id),
                    tenant: Some(ctx.insight_tenant_id),
                },
            ),
            stage,
        },
    )
}

/// Shows a metric of the tenant.
pub fn get_metric(ctx: &SecurityContext, id: Uuid) -> (step: Step)
    ensures
        step@ == get_metric_begins(*ctx, id),
{
    find_own_metric(ctx, id, false, Stage::GetMetric)
}

/// Creates a metric of the tenant under a new id.
pub fn create_metric(ctx: &SecurityContext, req: CreateMetricRequest) -> (step: Step)
    ensures
        exists|id: Uuid|
            is_version_7(id) && step@ == #[trigger] create_metric_begins(*ctx, id, req@),
{
    let id = new_id();
    insert_metric(ctx, id, req)
}

/// Creates a metric of the tenant under the id given.
pub fn insert_metric(ctx: &SecurityContext, id: Uuid, req: CreateMetricRequest) -> (step: Step)
    ensures
        step@ == create_metric_begins(*ctx, id, req@),
{
    Step::Wait(
        Pending {
            ctx: *ctx,
            call: Call::InsertMetric(
                metrics::ActiveModel {
                    id: ActiveValue::Assigned(id),
                    insight_tenant_id: ActiveValue::Assigned(ctx.insight_tenant_id),
                    name: ActiveValue::Assigned(req.name),
                    description: ActiveValue::Assigned(req.description),
                    query_ref: ActiveValue::Assigned(req.query_ref),
                    is_enabled: ActiveValue::Assigned(true),
                    created_at: ActiveValue::NotSet,
                    updated_at: ActiveValue::NotSet,
                },
            ),
            stage: Stage::InsertMetric { id },
        },
    )
}

/// Changes a metric of the tenant.
pub fn update_metric(ctx: &SecurityContext, id: Uuid, req: UpdateMetricRequest) -> (step: Step)
    ensures
        step@ == update_metric_begins(*ctx, id, req@),
{
    find_own_metric(ctx, id, false, Stage::FindMetricToUpdate { req })
}

/// Deletes a metric of the tenant: it is disabled, and its row stays.
pub fn delete_metric(ctx: &SecurityContext, id: Uuid) -> (step: Step)
    ensures
        step@ == delete_metric_begins(*ctx, id),
{
    find_own_metric(ctx, id, false, Stage::FindMetricToDelete)
}

/// Queries an enabled metric of the tenant.
pub fn query_metric(ctx: &SecurityContext, id: Uuid, req: QueryRequest) -> (step: Step)
    ensures
        step@ == query_metric_begins(*ctx, id, req@),
{
    find_own_metric(ctx, id, true, Stage::FindMetricToQuery { id, req })
}

/// Lists the thresholds of a metric of the tenant.
pub fn list_thresholds(ctx: &SecurityContext, metric_id: Uuid) -> (step: Step)
    ensures
        step@ == list_thresholds_begins(*ctx, metric_id),
{
    find_own_metric(ctx, metric_id, false, Stage::FindMetricOfThresholds { metric_id })
}

/// Creates a threshold of a metric of the tenant.
pub fn create_threshold(ctx: &SecurityContext, metric_id: Uuid, req: CreateThresholdRequest) -> (
    step: Step)
    ensures
        step@ == create_threshold_begins(*ctx, metric_id, req@),
{
    find_own_metric(ctx, metric_id, false, Stage::FindMetricOfNewThreshold { metric_id, req })
}

/// Changes a threshold of a metric of the tenant.
pub fn update_threshold(
    ctx: &SecurityContext,
    metric_id: Uuid,
    tid: Uuid,
    req: UpdateThresholdRequest,
) -> (step: Step)
    ensures
        step@ == update_threshold_begins(*ctx, metric_id, tid, req@),
{
    find_own_threshold(ctx, metric_id, tid, Stage::FindThresholdToUpdate { req })
}

/// Deletes a threshold of a metric of the tenant.
pub fn delete_threshold(ctx: &SecurityContext, metric_id: Uuid, tid: Uuid) -> (step: Step)
    ensures
        step@ == delete_threshold_begins(*ctx, metric_id, tid),
{
    find_own_threshold(ctx, metric_id, tid, Stage::FindThresholdToDelete)
}

/// Lists the table columns of the tenant and those that all tenants share.
pub fn list_columns(ctx: &SecurityContext) -> (step: Step)
    ensures
        step@ == list_columns_begins(*ctx, None),
{
    Step::Wait(
        Pending {
            ctx: *ctx,
            call: Call::AllColumns(ColumnFilter { table: None, tenant: ctx.insight_tenant_id }),
            stage: Stage::ListColumns,
        },
    )
}

/// Lists the columns of one table: those of the tenant and those that all tenants
/// share.
pub fn list_columns_for_table(ctx: &SecurityContext, table: String) -> (step: Step)
    ensures
        step@ == list_columns_begins(*ctx, Some(table@)),
{
    Step::Wait(
        Pending {
            ctx: *ctx,
            call: Call::AllColumns(
                ColumnFilter { table: Some(table), tenant: ctx.insight_tenant_id },
            ),
            stage: Stage::ListColumns,
        },
    )
}

// ---------------------------------------------------------------------------
// How requests go on
// ---------------------------------------------------------------------------

/// The request is refused or given up.
pub open spec fn fails(status: StatusCode) -> StepView {
    StepView::Done(Err(status))
}

/// The request is answered.
pub open spec fn answers(response: ResponseView) -> StepView {
    StepView::Done(Ok(response))
}

/// How a request goes on when the metric that it looked for is there, when it is
/// not, and when the database failed.
pub open spec fn with_metric(
    reply: ReplyView,
    found: spec_fn(metrics::Row) -> StepView,
    missing: StatusCode,
) -> StepView {
    match reply {
        ReplyView::Metric(Some(row)) => found(row),
        ReplyView::Metric(None) => fails(missing),
        _ => fails(StatusCode::InternalServerError),
    }
}

/// How a request goes on when the threshold that it looked for is there, when it is
/// not, and when the database failed.
pub open spec fn with_threshold(
    reply: ReplyView,
    found: spec_fn(thresholds::Row) -> StepView,
    missing: StatusCode,
) -> StepView {
    match reply {
        ReplyView::Threshold(Some(row)) => found(row),
        ReplyView::Threshold(None) => fails(missing),
        _ => fails(StatusCode::InternalServerError),
    }
}

/// How a request goes on when an insertion or a removal is done, and when it failed.
pub open spec fn when_done(reply: ReplyView, step: StepView) -> StepView {
    match reply {
        ReplyView::Done => step,
        _ => fails(StatusCode::InternalServerError),
    }
}

/// How a request to create a threshold goes on once its metric is there: it is
/// refused where the operator or the level is none that a threshold may have, and
/// inserted under the id `fresh` otherwise.
pub open spec fn threshold_checked(
    rules: ThresholdRulesView,
    ctx: SecurityContext,
    metric_id: Uuid,
    req: CreateThresholdRequest<Seq<char>>,
    fresh: Uuid,
) -> StepView {
    if rules.allow(req.operator, req.level) {
        waits(
            ctx,
            CallView::InsertThreshold(new_threshold(ctx, metric_id, fresh, req)),
            StageView::InsertThreshold { id: fresh },
        )
    } else {
        fails(StatusCode::BadRequest)
    }
}

/// How a request to change a threshold goes on once the threshold is there.
pub open spec fn threshold_changed(
    rules: ThresholdRulesView,
    ctx: SecurityContext,
    row: thresholds::Row,
    req: UpdateThresholdRequest<Seq<char>>,
) -> StepView {
    if change_is_valid(rules, req) {
        waits(
            ctx,
            CallView::UpdateThreshold(changed_threshold(row, req)),
            StageView::UpdateThreshold,
        )
    } else {
        fails(StatusCode::BadRequest)
    }
}

/// How a query goes on once the metric and its thresholds are there.
pub open spec fn query_compared(
    ctx: SecurityContext,
    query_ref: Seq<char>,
    req: QueryRequest<Seq<char>>,
    found: Seq<thresholds::Row>,
) -> StepView {
    let items = seq![debug_item(metric_query(query_ref, ctx.insight_tenant_id, req))];
    waits(
        ctx,
        CallView::Compare(all_comparisons(items, found)),
        StageView::CompareWithThresholds { items, thresholds: found },
    )
}

/// How a request goes on: what it does with `reply` at the stage that it is in. A
/// reply of a kind that the stage does not wait for counts as a failure of the
/// database. A threshold that is created gets the id `fresh`.
pub open spec fn next(
    rules: ThresholdRulesView,
    pending: PendingView,
    reply: ReplyView,
    fresh: Uuid,
) -> StepView {
    let ctx = pending.ctx;
    match pending.stage {
        StageView::ListMetrics => match reply {
            ReplyView::Metrics(found) => answers(ResponseView::MetricList(summaries_of(found))),
            _ => fails(StatusCode::InternalServerError),
        },
        StageView::GetMetric => with_metric(
            reply,
            |row: metrics::Row| answers(ResponseView::Metric(metric_of(row))),
            StatusCode::NotFound,
        ),
        StageView::InsertMetric { id } => when_done(
            reply,
            waits(
                ctx,
                CallView::OneMetric(
                    MetricFilter { id: Some(id), tenant: None, enabled_only: false },
                ),
                StageView::ReadNewMetric,
            ),
        ),
        StageView::ReadNewMetric => with_metric(
            reply,
            |row: metrics::Row| answers(ResponseView::CreatedMetric(metric_of(row))),
            StatusCode::InternalServerError,
        ),
        StageView::FindMetricToUpdate { req } => with_metric(
            reply,
            |row: metrics::Row|
                waits(
                    ctx,
                    CallView::UpdateMetric(changed_metric(row, req)),
                    StageView::UpdateMetric,
                ),
            StatusCode::NotFound,
        ),
        StageView::UpdateMetric => match reply {
            ReplyView::UpdatedMetric(row) => answers(ResponseView::Metric(metric_of(row))),
            _ => fails(StatusCode::InternalServerError),
        },
        StageView::FindMetricToDelete => with_metric(
            reply,
            |row: metrics::Row|
                waits(ctx, CallView::UpdateMetric(disabled_metric(row)), StageView::DisableMetric),
            StatusCode::NotFound,
        ),
        StageView::DisableMetric => match reply {
            ReplyView::UpdatedMetric(_) => answers(ResponseView::NoContent),
            _ => fails(StatusCode::InternalServerError),
        },
        StageView::FindMetricToQuery { id, req } => with_metric(
            reply,
            |row: metrics::Row|
                waits(
                    ctx,
                    CallView::AllThresholds(own_thresholds(ctx, id)),
                    StageView::FindThresholdsToQuery { query_ref: row.query_ref, req },
                ),
            StatusCode::NotFound,
        ),
        StageView::FindThresholdsToQuery { query_ref, req } => match reply {
            ReplyView::Thresholds(found) => query_compared(ctx, query_ref, req, found),
            _ => fails(StatusCode::InternalServerError),
        },
        StageView::CompareWithThresholds { items, thresholds } => match reply {
            ReplyView::Verdicts(verdicts) => answers(
                ResponseView::Query(single_page(all_with_levels(items, thresholds, verdicts))),
            ),
            _ => fails(StatusCode::InternalServerError),
        },
        StageView::FindMetricOfThresholds { metric_id } => with_metric(
            reply,
            |row: metrics::Row|
                waits(
                    ctx,
                    CallView::AllThresholds(own_thresholds(ctx, metric_id)),
                    StageView::ListThresholds,
                ),
            StatusCode::NotFound,
        ),
        StageView::ListThresholds => match reply {
            ReplyView::Thresholds(found) => answers(
                ResponseView::ThresholdList(thresholds_of(found)),
            ),
            _ => fails(StatusCode::InternalServerError),
        },
        StageView::FindMetricOfNewThreshold { metric_id, req } => with_metric(
            reply,
            |row: metrics::Row| threshold_checked(rules, ctx, metric_id, req, fresh),
            StatusCode::NotFound,
        ),
        StageView::InsertThreshold { id } => when_done(
            reply,
            waits(
                ctx,
                CallView::OneThreshold(
                    ThresholdFilter { id: Some(id), metric_id: None, tenant: None },
                ),
                StageView::ReadNewThreshold,
            ),
        ),
        StageView::ReadNewThreshold => with_threshold(
            reply,
            |row: thresholds::Row| answers(ResponseView::CreatedThreshold(threshold_of(row))),
            StatusCode::InternalServerError,
        ),
        StageView::FindThresholdToUpdate { req } => with_threshold(
            reply,
            |row: thresholds::Row| threshold_changed(rules, ctx, row, req),
            StatusCode::NotFound,
        ),
        StageView::UpdateThreshold => match reply {
            ReplyView::UpdatedThreshold(row) => answers(
                ResponseView::Threshold(threshold_of(row)),
            ),
            _ => fails(StatusCode::InternalServerError),
        },
        StageView::FindThresholdToDelete => with_threshold(
            reply,
            |row: thresholds::Row|
                waits(ctx, CallView::DeleteThreshold(row.id), StageView::DeleteThreshold),
            StatusCode::NotFound,
        ),
        StageView::DeleteThreshold => when_done(reply, answers(ResponseView::NoContent)),
        StageView::ListColumns => match reply {
            ReplyView::Columns(found) => answers(ResponseView::ColumnList(columns_of(found))),
            _ => fails(StatusCode::InternalServerError),
        },
    }
}

/// How many calls a request makes at most from where it stands.
pub open spec fn calls_left(step: StepView) -> nat {
    match step {
        StepView::Done(_) => 0,
        StepView::Wait(pending) => match pending.stage {
            StageView::FindMetricToQuery { .. } => 3,
            StageView::FindMetricOfNewThreshold { .. } => 3,
            StageView::InsertMetric { .. } => 2,
            StageView::FindMetricToUpdate { .. } => 2,
            StageView::FindMetricToDelete => 2,
            StageView::FindThresholdsToQuery { .. } => 2,
            StageView::FindMetricOfThresholds { .. } => 2,
            StageView::InsertThreshold { .. } => 2,
            StageView::FindThresholdToUpdate { .. } => 2,
            StageView::FindThresholdToDelete => 2,
            _ => 1,
        },
    }
}

/// Every reply brings a request closer to its end.
pub proof fn lemma_next_is_closer(rules: ThresholdRulesView, pending: PendingView)
    ensures
        forall|reply: ReplyView, fresh: Uuid|
            calls_left(#[trigger] next(rules, pending, reply, fresh)) < calls_left(
                StepView::Wait(pending),
            ),
{
}

/// The request waits for the reply to `call`.
fn wait(ctx: SecurityContext, call: Call, stage: Stage) -> (step: Step)
    ensures
        step@ == waits(ctx, call@, stage@),
{
    Step::Wait(Pending { ctx, call, stage })
}

/// The request is refused or given up.
fn fail(status: StatusCode) -> (step: Step)
    ensures
        step@ == fails(status),
{
    Step::Done(Err(status))
}

/// The request is answered.
fn answer(response: Response) -> (step: Step)
    ensures
        step@ == answers(response@),
{
    Step::Done(Ok(response))
}

/// The metric that a request looked for, or what the request fails with.
fn found_metric(reply: Reply, missing: StatusCode) -> (found: Result<metrics::Model, StatusCode>)
    ensures
        match found {
            Ok(row) => reply@ == ReplyView::Metric(Some(row@)),
            Err(status) => status == if reply@ == ReplyView::Metric(None) {
                missing
            } else {
                StatusCode::InternalServerError
            } && !(reply@ is Metric && reply@->Metric_0 is Some),
        },
{
    match reply {
        Reply::Metric(Some(row)) => Ok(row),
        Reply::Metric(None) => Err(missing),
        _ => Err(StatusCode::InternalServerError),
    }
}

/// The threshold that a request looked for, or what the request fails with.
fn found_threshold(reply: Reply, missing: StatusCode) -> (found: Result<
    thresholds::Model,
    StatusCode,
>)
    ensures
        match found {
            Ok(row) => reply@ == ReplyView::Threshold(Some(row@)),
            Err(status) => status == if reply@ == ReplyView::Threshold(None) {
                missing
            } else {
                StatusCode::InternalServerError
            } && !(reply@ is Threshold && reply@->Threshold_0 is Some),
        },
{
    match reply {
        Reply::Threshold(Some(row)) => Ok(row),
        Reply::Threshold(None) => Err(missing),
        _ => Err(StatusCode::InternalServerError),
    }
}

/// Inserts a threshold of a metric of the tenant under the id given.
pub fn insert_threshold(
    ctx: &SecurityContext,
    metric_id: Uuid,
    id: Uuid,
    req: CreateThresholdRequest,
) -> (step: Step)
    ensures
        step@ == waits(
            *ctx,
            CallView::InsertThreshold(new_threshold(*ctx, metric_id, id, req@)),
            StageView::InsertThreshold { id },
        ),
{
    wait(
        *ctx,
        Call::InsertThreshold(
            thresholds::ActiveModel {
                id: ActiveValue::Assigned(id),
                insight_tenant_id: ActiveValue::Assigned(ctx.insight_tenant_id),
                metric_id: ActiveValue::Assigned(metric_id),
                field_name: ActiveValue::Assigned(req.field_name),
                operator: ActiveValue::Assigned(req.operator),
                value: ActiveValue::Assigned(req.value),
                level: ActiveValue::Assigned(req.level),
                created_at: ActiveValue::NotSet,
                updated_at: ActiveValue::NotSet,
            },
        ),
        Stage::InsertThreshold { id },
    )
}

/// Goes on with a query once the metric and its thresholds are there: builds the
/// statement, and asks for the comparisons that the thresholds call for on the rows.
fn compare_query(
    ctx: &SecurityContext,
    query_ref: String,
    req: QueryRequest,
    found: Vec<thresholds::Model>,
) -> (step: Step)
    ensures
        step@ == query_compared(*ctx, query_ref@, req@, thresholds::rows(found@)),
{
    let query = build_query(query_ref.as_str(), ctx, &req);
    let items = query_items(query);
    let lists = items_comparisons(&items, &found);
    wait(
        *ctx,
        Call::Compare(lists),
        Stage::CompareWithThresholds { items, thresholds: found },
    )
}

/// Goes on with a request: does with `reply` what the stage calls for that the
/// request is in. `rules` says which operators and levels a threshold may have.
pub fn resume(rules: &ThresholdRules, pending: Pending, reply: Reply) -> (step: Step)
    ensures
        exists|fresh: Uuid| step@ == #[trigger] next(rules@, pending@, reply@, fresh),
        step@ matches StepView::Wait(PendingView {
            stage: StageView::InsertThreshold { id },
            ..
        }) ==> is_version_7(id),
{
    let ghost before = pending@;
    let ctx = pending.ctx;
    let ghost mut fresh: Uuid = arbitrary();
    let step = match pending.stage {
        Stage::ListMetrics => match reply {
            Reply::Metrics(found) => answer(Response::MetricList(metric_summaries(found))),
            _ => fail(StatusCode::InternalServerError),
        },
        Stage::GetMetric => match found_metric(reply, StatusCode::NotFound) {
            Ok(row) => answer(Response::Metric(model_to_metric(row))),
            Err(status) => fail(status),
        },
        Stage::InsertMetric { id } => match reply {
            Reply::Done => wait(
                ctx,
                Call::OneMetric(MetricFilter { id: Some(id), tenant: None, enabled_only: false }),
                Stage::ReadNewMetric,
            ),
            _ => fail(StatusCode::InternalServerError),
        },
        Stage::ReadNewMetric => match found_metric(reply, StatusCode::InternalServerError) {
            Ok(row) => answer(Response::CreatedMetric(model_to_metric(row))),
            Err(status) => fail(status),
        },
        Stage::FindMetricToUpdate { req } => match found_metric(reply, StatusCode::NotFound) {
            Ok(row) => wait(ctx, Call::UpdateMetric(change_metric(row, req)), Stage::UpdateMetric),
            Err(status) => fail(status),
        },
        Stage::UpdateMetric => match reply {
            Reply::UpdatedMetric(row) => answer(Response::Metric(model_to_metric(row))),
            _ => fail(StatusCode::InternalServerError),
        },
        Stage::FindMetricToDelete => match found_metric(reply, StatusCode::NotFound) {
            Ok(row) => wait(ctx, Call::UpdateMetric(disable_metric(row)), Stage::DisableMetric),
            Err(status) => fail(status),
        },
        Stage::DisableMetric => match reply {
            Reply::UpdatedMetric(_) => answer(Response::NoContent),
            _ => fail(StatusCode::InternalServerError),
        },
        Stage::FindMetricToQuery { id, req } => match found_metric(reply, StatusCode::NotFound) {
            Ok(row) => wait(
                ctx,
                Call::AllThresholds(
                    ThresholdFilter {
                        id: None,
                        metric_id: Some(id),
                        tenant: Some(ctx.insight_tenant_id),
                    },
                ),
                Stage::FindThresholdsToQuery { query_ref: row.query_ref, req },
            ),
            Err(status) => fail(status),
        },
        Stage::FindThresholdsToQuery { query_ref, req } => match reply {
            Reply::Thresholds(found) => compare_query(&ctx, query_ref, req, found),
            _ => fail(StatusCode::InternalServerError),
        },
        Stage::CompareWithThresholds { items, thresholds } => match reply {
            Reply::Verdicts(verdicts) => answer(
                Response::Query(
                    QueryResponse {
                        items: evaluate_items(items, &thresholds, &verdicts),
                        page_info: PageInfo { has_next: false, cursor: None },
                    },
                ),
            ),
            _ => fail(StatusCode::InternalServerError),
        },
        Stage::FindMetricOfThresholds { metric_id } => match found_metric(
            reply,
            StatusCode::NotFound,
        ) {
            Ok(_) => wait(
                ctx,
                Call::AllThresholds(
                    ThresholdFilter {
                        id: None,
                        metric_id: Some(metric_id),
                        tenant: Some(ctx.insight_tenant_id),
                    },
                ),
                Stage::ListThresholds,
            ),
            Err(status) => fail(status),
        },
        Stage::ListThresholds => match reply {
            Reply::Thresholds(found) => answer(Response::ThresholdList(threshold_list(found))),
            _ => fail(StatusCode::InternalServerError),
        },
        Stage::FindMetricOfNewThreshold { metric_id, req } => match found_metric(
            reply,
            StatusCode::NotFound,
        ) {
            Ok(_) => if validate_threshold(rules, req.operator.as_str(), req.level.as_str()) {
                let id = new_id();
                proof {
                    fresh = id;
                }
                insert_threshold(&ctx, metric_id, id, req)
            } else {
                fail(StatusCode::BadRequest)
            },
            Err(status) => fail(status),
        },
        Stage::InsertThreshold { id } => match reply {
            Reply::Done => wait(
                ctx,
                Call::OneThreshold(
                    ThresholdFilter { id: Some(id), metric_id: None, tenant: None },
                ),
                Stage::ReadNewThreshold,
            ),
            _ => fail(StatusCode::InternalServerError),
        },
        Stage::ReadNewThreshold => match found_threshold(reply, StatusCode::InternalServerError) {
            Ok(row) => answer(Response::CreatedThreshold(model_to_threshold(row))),
            Err(status) => fail(status),
        },
        Stage::FindThresholdToUpdate { req } => match found_threshold(
            reply,
            StatusCode::NotFound,
        ) {
            Ok(row) => match change_threshold(rules, row, req) {
                Ok(changed) => wait(ctx, Call::UpdateThreshold(changed), Stage::UpdateThreshold),
                Err(status) => fail(status),
            },
            Err(status) => fail(status),
        },
        Stage::UpdateThreshold => match reply {
            Reply::UpdatedThreshold(row) => answer(Response::Threshold(model_to_threshold(row))),
            _ => fail(StatusCode::InternalServerError),
        },
        Stage::FindThresholdToDelete => match found_threshold(reply, StatusCode::NotFound) {
            Ok(row) => wait(ctx, Call::DeleteThreshold(row.id), Stage::DeleteThreshold),
            Err(status) => fail(status),
        },
        Stage::DeleteThreshold => match reply {
            Reply::Done => answer(Response::NoContent),
            _ => fail(StatusCode::InternalServerError),
        },
        Stage::ListColumns => match reply {
            Reply::Columns(found) => answer(Response::ColumnList(column_list(found))),
            _ => fail(StatusCode::InternalServerError),
        },
    };
    assert(step@ == next(rules@, before, reply@, fresh));
    step
}

} // verus!
