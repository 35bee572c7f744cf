//! What each request asks for, call by call, and what it makes of each reply: the
//! conditions of each lookup, the columns of each write, and the answer.

use vstd::prelude::*;

use crate::auth::SecurityContext;
use crate::domain::metric::{CreateMetricRequest, UpdateMetricRequest};
use crate::domain::query::QueryRequest;
use crate::domain::threshold::{
    CreateThresholdRequest, ThresholdRulesView, UpdateThresholdRequest,
};
use crate::entities::active_value::ActiveValue;
use crate::entities::{metrics, table_columns, thresholds};
use crate::handlers::{
    create_metric_begins, create_threshold_begins, debug_item, delete_metric_begins,
    delete_threshold_begins, get_metric_begins, list_columns_begins, list_metrics_begins,
    list_thresholds_begins, next, query_metric_begins, update_metric_begins,
    update_threshold_begins,
};
use crate::ids::Uuid;
use crate::json::{Entries, Json};
use crate::laws::queries::{law_statement_selects_as_asked, selects_as_asked};
use crate::laws::rows::{
    law_lists_show_row_by_row, shows_column, shows_metric, shows_summary, shows_threshold,
};
use crate::laws::severity::{
    law_rows_are_evaluated_one_by_one, law_thresholds_call_for_their_comparisons, shows_levels,
    verdicts_on,
};
use crate::levels::all_comparisons;
use crate::pending::{PendingView, StageView, StepView};
use crate::protocol::{CallView, ColumnFilter, MetricFilter, ReplyView, ThresholdFilter};
use crate::response::{ResponseView, StatusCode};
use crate::sql::metric_query;

verus! {

/// The request waits, on behalf of the same tenant, for the reply to `call`.
pub open spec fn asks(step: StepView, ctx: SecurityContext, call: CallView) -> bool {
    step matches StepView::Wait(pending) && pending.ctx == ctx && pending.call == call
}

/// The call that a request waits for.
pub open spec fn asked(step: StepView) -> CallView {
    step->Wait_0.call
}

/// What a request that waits comes to when it hears `reply`.
pub open spec fn hearing(
    rules: ThresholdRulesView,
    step: StepView,
    reply: ReplyView,
    fresh: Uuid,
) -> StepView {
    next(rules, step->Wait_0, reply, fresh)
}

/// The request is given up with `status`.
pub open spec fn ends_in(step: StepView, status: StatusCode) -> bool {
    step == StepView::Done(Err(status))
}

/// The call for the metric of that id among those of the tenant.
pub open spec fn metric_of_tenant(ctx: SecurityContext, id: Uuid) -> CallView {
    CallView::OneMetric(
        MetricFilter { id: Some(id), tenant: Some(ctx.insight_tenant_id), enabled_only: false },
    )
}

/// The call for the threshold of that id among those of the tenant on the metric.
pub open spec fn threshold_of_tenant(ctx: SecurityContext, metric_id: Uuid, tid: Uuid) -> CallView {
    CallView::OneThreshold(
        ThresholdFilter {
            id: Some(tid),
            metric_id: Some(metric_id),
            tenant: Some(ctx.insight_tenant_id),
        },
    )
}

/// The call for all thresholds of the tenant on the metric.
pub open spec fn thresholds_on_metric(ctx: SecurityContext, metric_id: Uuid) -> CallView {
    CallView::AllThresholds(
        ThresholdFilter {
            id: None,
            metric_id: Some(metric_id),
            tenant: Some(ctx.insight_tenant_id),
        },
    )
}

/// A column is written with what is named for it, and left alone if nothing is.
pub open spec fn writes_named<T>(column: ActiveValue<T>, named: Option<T>, held: T) -> bool {
    &&& named is Some ==> column == ActiveValue::Assigned(named->0)
    &&& named is None ==> column == ActiveValue::Unchanged(held)
}

/// A request for metrics asks for all enabled ones of the tenant and shows each that it
/// hears of, in that order.
pub proof fn law_conversation_of_list_metrics(
    rules: ThresholdRulesView,
    ctx: SecurityContext,
    found: Seq<metrics::Row>,
    fresh: Uuid,
)
    ensures
        asks(
            list_metrics_begins(ctx),
            ctx,
            CallView::AllMetrics(
                MetricFilter { id: None, tenant: Some(ctx.insight_tenant_id), enabled_only: true },
            ),
        ),
        hearing(rules, list_metrics_begins(ctx), ReplyView::Metrics(found), fresh)
            matches StepView::Done(Ok(ResponseView::MetricList(list))) && {
            &&& list.len() == found.len()
            &&& forall|i: int|
                0 <= i < list.len() ==> shows_summary(#[trigger] list[i], found[i])
        },
{
    law_lists_show_row_by_row(found, Seq::empty(), Seq::empty());
}

/// A request for a metric asks for the one of that id among those of the tenant, shows
/// it if there is one, and is not found otherwise.
pub proof fn law_conversation_of_get_metric(
    rules: ThresholdRulesView,
    ctx: SecurityContext,
    id: Uuid,
    row: metrics::Row,
    fresh: Uuid,
)
    ensures
        asks(get_metric_begins(ctx, id), ctx, metric_of_tenant(ctx, id)),
        hearing(rules, get_metric_begins(ctx, id), ReplyView::Metric(Some(row)), fresh)
            matches StepView::Done(Ok(ResponseView::Metric(metric))) && shows_metric(metric, row),
        ends_in(
            hearing(rules, get_metric_begins(ctx, id), ReplyView::Metric(None), fresh),
            StatusCode::NotFound,
        ),
{
}

/// A request to create a metric inserts it for the tenant as it is asked for, enabled
/// and with its times left to the database; then it asks for the row of that id and
/// shows it.
pub proof fn law_conversation_of_create_metric(
    rules: ThresholdRulesView,
    ctx: SecurityContext,
    id: Uuid,
    req: CreateMetricRequest<Seq<char>>,
    row: metrics::Row,
    fresh: Uuid,
)
    ensures
        create_metric_begins(ctx, id, req) matches StepView::Wait(pending) && pending.ctx == ctx,
        asked(create_metric_begins(ctx, id, req)) matches CallView::InsertMetric(active) && {
            &&& active.id == ActiveValue::Assigned(id)
            &&& active.insight_tenant_id == ActiveValue::Assigned(ctx.insight_tenant_id)
            &&& active.name == ActiveValue::Assigned(req.name)
            &&& active.description == ActiveValue::Assigned(req.description)
            &&& active.query_ref == ActiveValue::Assigned(req.query_ref)
            &&& active.is_enabled == ActiveValue::Assigned(true)
            &&& active.created_at is NotSet
            &&& active.updated_at is NotSet
        },
        ({
            let inserted = hearing(
                rules,
                create_metric_begins(ctx, id, req),
                ReplyView::Done,
                fresh,
            );
            &&& asks(
                inserted,
                ctx,
                CallView::OneMetric(
                    MetricFilter { id: Some(id), tenant: None, enabled_only: false },
                ),
            )
            &&& hearing(rules, inserted, ReplyView::Metric(Some(row)), fresh)
                matches StepView::Done(Ok(ResponseView::CreatedMetric(metric))) && shows_metric(
                metric,
                row,
            )
            &&& ends_in(
                hearing(rules, inserted, ReplyView::Metric(None), fresh),
                StatusCode::InternalServerError,
            )
        }),
{
}

/// A request to change a metric asks for the one of that id among those of the tenant;
/// it is not found if there is none; else the columns that the request names are
/// written, and no others, in the row that was found, and the row that results is shown.
pub proof fn law_conversation_of_update_metric(
    rules: ThresholdRulesView,
    ctx: SecurityContext,
    id: Uuid,
    req: UpdateMetricRequest<Seq<char>>,
    row: metrics::Row,
    after: metrics::Row,
    fresh: Uuid,
)
    ensures
        asks(update_metric_begins(ctx, id, req), ctx, metric_of_tenant(ctx, id)),
        ends_in(
            hearing(rules, update_metric_begins(ctx, id, req), ReplyView::Metric(None), fresh),
            StatusCode::NotFound,
        ),
        ({
            let found = hearing(
                rules,
                update_metric_begins(ctx, id, req),
                ReplyView::Metric(Some(row)),
                fresh,
            );
            &&& found matches StepView::Wait(pending) && pending.ctx == ctx
            &&& asked(found) matches CallView::UpdateMetric(active) && {
                &&& active.id == ActiveValue::Unchanged(row.id)
                &&& active.insight_tenant_id == ActiveValue::Unchanged(row.insight_tenant_id)
                &&& writes_named(active.name, req.name, row.name)
                &&& req.description is Some ==> active.description == ActiveValue::Assigned(
                    req.description,
                )
                &&& req.description is None ==> active.description == ActiveValue::Unchanged(
                    row.description,
                )
                &&& writes_named(active.query_ref, req.query_ref, row.query_ref)
                &&& writes_named(active.is_enabled, req.is_enabled, row.is_enabled)
                &&& active.created_at == ActiveValue::Unchanged(row.created_at)
                &&& active.updated_at == ActiveValue::Unchanged(row.updated_at)
            }
            &&& hearing(rules, found, ReplyView::UpdatedMetric(after), fresh)
                matches StepView::Done(Ok(ResponseView::Metric(metric))) && shows_metric(
                metric,
                after,
            )
        }),
{
}

/// A request to delete a metric asks for the one of that id among those of the tenant;
/// it is not found if there is none; else the row that was found is disabled, no other
/// column is written, and the answer is empty.
pub proof fn law_conversation_of_delete_metric(
    rules: ThresholdRulesView,
    ctx: SecurityContext,
    id: Uuid,
    row: metrics::Row,
    after: metrics::Row,
    fresh: Uuid,
)
    ensures
        asks(delete_metric_begins(ctx, id), ctx, metric_of_tenant(ctx, id)),
        ends_in(
            hearing(rules, delete_metric_begins(ctx, id), ReplyView::Metric(None), fresh),
            StatusCode::NotFound,
        ),
        ({
            let found = hearing(
                rules,
                delete_metric_begins(ctx, id),
                ReplyView::Metric(Some(row)),
                fresh,
            );
            &&& found matches StepView::Wait(pending) && pending.ctx == ctx
            &&& asked(found) matches CallView::UpdateMetric(active) && {
                &&& active.id == ActiveValue::Unchanged(row.id)
                &&& active.insight_tenant_id == ActiveValue::Unchanged(row.insight_tenant_id)
                &&& active.name == ActiveValue::Unchanged(row.name)
                &&& active.description == ActiveValue::Unchanged(row.description)
                &&& active.query_ref == ActiveValue::Unchanged(row.query_ref)
                &&& active.is_enabled == ActiveValue::Assigned(false)
                &&& active.created_at == ActiveValue::Unchanged(row.created_at)
                &&& active.updated_at == ActiveValue::Unchanged(row.updated_at)
            }
            &&& hearing(rules, found, ReplyView::UpdatedMetric(after), fresh) == StepView::Done(
                Ok(ResponseView::NoContent),
            )
        }),
{
}

/// `row` shows a query of a metric: the statement and its parameters, which select what
/// the query asks for, and a note.
pub open spec fn shows_query(
    row: Entries,
    query_ref: Seq<char>,
    tenant: Uuid,
    req: QueryRequest<Seq<char>>,
) -> bool {
    &&& forall|key: Seq<char>| #[trigger]
        row.contains_key(key) ==> key == "_debug_sql"@ || key == "_debug_params"@ || key
            == "_note"@ || key == "_thresholds"@
    &&& row.contains_key("_debug_sql"@)
    &&& row.contains_key("_debug_params"@)
    &&& row.contains_key("_note"@)
    &&& row["_note"@] == Json::Text(
        "query execution not yet implemented — need dynamic row deserialization"@,
    )
    &&& exists|sql: Seq<char>, params: Seq<Seq<char>>|
        {
            &&& #[trigger] selects_as_asked(sql, params, query_ref, tenant, req)
            &&& row["_debug_sql"@] == Json::Text(sql)
            &&& row["_debug_params"@] matches Json::Array(list) && {
                &&& list.len() == params.len()
                &&& forall|i: int|
                    0 <= i < list.len() ==> #[trigger] list[i] == Json::Text(params[i])
            }
        }
}

/// The row that stands for the result of a query shows the query.
pub proof fn law_debug_row_shows_the_query(
    query_ref: Seq<char>,
    tenant: Uuid,
    req: QueryRequest<Seq<char>>,
)
    ensures
        shows_query(debug_item(metric_query(query_ref, tenant, req)), query_ref, tenant, req),
        !debug_item(metric_query(query_ref, tenant, req)).contains_key("_thresholds"@),
        forall|key: Seq<char>|
            !(#[trigger] debug_item(metric_query(query_ref, tenant, req))[key] is Number)
                || !debug_item(metric_query(query_ref, tenant, req)).contains_key(key),
{
    let query = metric_query(query_ref, tenant, req);
    let row = debug_item(query);
    reveal_strlit("_debug_sql");
    reveal_strlit("_debug_params");
    reveal_strlit("_note");
    reveal_strlit("_thresholds");
    assert("_debug_sql"@.len() == 10);
    assert("_debug_params"@.len() == 13);
    assert("_note"@.len() == 5);
    assert("_thresholds"@.len() == 11);
    law_statement_selects_as_asked(query_ref, tenant, req);
    assert(selects_as_asked(query.sql, query.params, query_ref, tenant, req));
}

/// A query asks for the metric of that id among the enabled ones of the tenant; it is
/// not found if there is none; else it asks for the thresholds of the tenant on that
/// metric, and goes on with each of them, in that order, and with one row, which shows
/// the query by the text of the metric that was found. No threshold calls for a
/// comparison on that row.
pub proof fn law_conversation_of_query_metric(
    rules: ThresholdRulesView,
    ctx: SecurityContext,
    id: Uuid,
    req: QueryRequest<Seq<char>>,
    row: metrics::Row,
    found: Seq<thresholds::Row>,
    fresh: Uuid,
)
    ensures
        asks(
            query_metric_begins(ctx, id, req),
            ctx,
            CallView::OneMetric(
                MetricFilter {
                    id: Some(id),
                    tenant: Some(ctx.insight_tenant_id),
                    enabled_only: true,
                },
            ),
        ),
        ends_in(
            hearing(rules, query_metric_begins(ctx, id, req), ReplyView::Metric(None), fresh),
            StatusCode::NotFound,
        ),
        ({
            let metric_found = hearing(
                rules,
                query_metric_begins(ctx, id, req),
                ReplyView::Metric(Some(row)),
                fresh,
            );
            let comparing = hearing(rules, metric_found, ReplyView::Thresholds(found), fresh);
            &&& asks(metric_found, ctx, thresholds_on_metric(ctx, id))
            &&& comparing matches StepView::Wait(pending) && pending.ctx == ctx
            &&& asked(comparing) matches CallView::Compare(lists) && {
                &&& lists.len() == 1
                &&& lists[0].len() == found.len()
                &&& forall|i: int| 0 <= i < found.len() ==> (#[trigger] lists[0][i]) is None
            }
            &&& comparing->Wait_0.stage matches StageView::CompareWithThresholds {
                items,
                thresholds,
            } && {
                &&& thresholds == found
                &&& items.len() == 1
                &&& shows_query(items[0], row.query_ref, ctx.insight_tenant_id, req)
                &&& !items[0].contains_key("_thresholds"@)
            }
        }),
{
    let query = metric_query(row.query_ref, ctx.insight_tenant_id, req);
    let items = seq![debug_item(query)];
    law_debug_row_shows_the_query(row.query_ref, ctx.insight_tenant_id, req);
    law_thresholds_call_for_their_comparisons(items, found);
    let lists = all_comparisons(items, found);
    assert(items[0] == debug_item(query));
    assert forall|i: int| 0 <= i < found.len() implies (#[trigger] lists[0][i]) is None by {
        let field = found[i].field_name;
        assert(!(items[0][field] is Number) || !items[0].contains_key(field));
    }
}

/// A query that hears how comparisons came out shows each of its rows in turn, with the
/// levels that its thresholds give the row by the verdicts on that row, on a page that
/// has none after it.
pub proof fn law_conversation_of_comparisons(
    rules: ThresholdRulesView,
    step: StepView,
    verdicts: Seq<Seq<bool>>,
    fresh: Uuid,
)
    requires
        step is Wait,
        step->Wait_0.stage is CompareWithThresholds,
    ensures
        ({
            let items = step->Wait_0.stage->items;
            let found = step->Wait_0.stage->thresholds;
            hearing(rules, step, ReplyView::Verdicts(verdicts), fresh) matches StepView::Done(
                Ok(ResponseView::Query(answer)),
            ) && {
                &&& answer.items.len() == items.len()
                &&& forall|r: int|
                    0 <= r < items.len() ==> shows_levels(
                        items[r],
                        found,
                        verdicts_on(verdicts, r),
                        #[trigger] answer.items[r],
                    )
                &&& !answer.page_info.has_next
                &&& answer.page_info.cursor is None
            }
        }),
{
    law_rows_are_evaluated_one_by_one(
        step->Wait_0.stage->items,
        step->Wait_0.stage->thresholds,
        verdicts,
    );
}

/// A request for the thresholds of a metric asks for the metric among those of the
/// tenant; it is not found if there is none; else it asks for all thresholds of the
/// tenant on that metric, and shows each that it hears of, in that order.
pub proof fn law_conversation_of_list_thresholds(
    rules: ThresholdRulesView,
    ctx: SecurityContext,
    metric_id: Uuid,
    row: metrics::Row,
    found: Seq<thresholds::Row>,
    fresh: Uuid,
)
    ensures
        asks(list_thresholds_begins(ctx, metric_id), ctx, metric_of_tenant(ctx, metric_id)),
        ends_in(
            hearing(rules, list_thresholds_begins(ctx, metric_id), ReplyView::Metric(None), fresh),
            StatusCode::NotFound,
        ),
        ({
            let metric_found = hearing(
                rules,
                list_thresholds_begins(ctx, metric_id),
                ReplyView::Metric(Some(row)),
                fresh,
            );
            &&& asks(metric_found, ctx, thresholds_on_metric(ctx, metric_id))
            &&& hearing(rules, metric_found, ReplyView::Thresholds(found), fresh)
                matches StepView::Done(Ok(ResponseView::ThresholdList(list))) && {
                &&& list.len() == found.len()
                &&& forall|i: int|
                    0 <= i < list.len() ==> shows_threshold(#[trigger] list[i], found[i])
            }
        }),
{
    law_lists_show_row_by_row(Seq::empty(), found, Seq::empty());
}

/// A request to create a threshold asks for the metric among those of the tenant; it is
/// not found if there is none; it is bad if the operator or the level is not among the
/// allowed ones, and only then; else the threshold is inserted for the tenant and the
/// metric as it is asked for, with its times left to the database, the row of its id is
/// asked for, and shown.
pub proof fn law_conversation_of_create_threshold(
    rules: ThresholdRulesView,
    ctx: SecurityContext,
    metric_id: Uuid,
    req: CreateThresholdRequest<Seq<char>>,
    row: metrics::Row,
    read: thresholds::Row,
    fresh: Uuid,
    other: Uuid,
)
    ensures
        asks(create_threshold_begins(ctx, metric_id, req), ctx, metric_of_tenant(ctx, metric_id)),
        ends_in(
            hearing(
                rules,
                create_threshold_begins(ctx, metric_id, req),
                ReplyView::Metric(None),
                fresh,
            ),
            StatusCode::NotFound,
        ),
        ({
            let found = hearing(
                rules,
                create_threshold_begins(ctx, metric_id, req),
                ReplyView::Metric(Some(row)),
                fresh,
            );
            if !rules.operators.contains(req.operator) || !rules.levels.contains(req.level) {
                ends_in(found, StatusCode::BadRequest)
            } else {
                let inserted = hearing(rules, found, ReplyView::Done, other);
                &&& found matches StepView::Wait(pending) && pending.ctx == ctx
                &&& asked(found) matches CallView::InsertThreshold(active) && {
                    &&& active.id == ActiveValue::Assigned(fresh)
                    &&& active.insight_tenant_id == ActiveValue::Assigned(ctx.insight_tenant_id)
                    &&& active.metric_id == ActiveValue::Assigned(metric_id)
                    &&& active.field_name == ActiveValue::Assigned(req.field_name)
                    &&& active.operator == ActiveValue::Assigned(req.operator)
                    &&& active.value == ActiveValue::Assigned(req.value)
                    &&& active.level == ActiveValue::Assigned(req.level)
                    &&& active.created_at is NotSet
                    &&& active.updated_at is NotSet
                }
                &&& asks(
                    inserted,
                    ctx,
                    CallView::OneThreshold(
                        ThresholdFilter { id: Some(fresh), metric_id: None, tenant: None },
                    ),
                )
                &&& hearing(rules, inserted, ReplyView::Threshold(Some(read)), other)
                    matches StepView::Done(Ok(ResponseView::CreatedThreshold(threshold)))
                    && shows_threshold(threshold, read)
                &&& ends_in(
                    hearing(rules, inserted, ReplyView::Threshold(None), other),
                    StatusCode::InternalServerError,
                )
            }
        }),
{
}

/// A request to change a threshold asks for the one of that id among those of the tenant
/// on the metric; it is not found if there is none; it is bad if it names an operator or
/// a level that is not among the allowed ones, and only then; else the columns that the
/// request names are written, and no others, in the row that was found, and the row that
/// results is shown.
pub proof fn law_conversation_of_update_threshold(
    rules: ThresholdRulesView,
    ctx: SecurityContext,
    metric_id: Uuid,
    tid: Uuid,
    req: UpdateThresholdRequest<Seq<char>>,
    row: thresholds::Row,
    after: thresholds::Row,
    fresh: Uuid,
)
    ensures
        asks(
            update_threshold_begins(ctx, metric_id, tid, req),
            ctx,
            threshold_of_tenant(ctx, metric_id, tid),
        ),
        ends_in(
            hearing(
                rules,
                update_threshold_begins(ctx, metric_id, tid, req),
                ReplyView::Threshold(None),
                fresh,
            ),
            StatusCode::NotFound,
        ),
        ({
            let found = hearing(
                rules,
                update_threshold_begins(ctx, metric_id, tid, req),
                ReplyView::Threshold(Some(row)),
                fresh,
            );
            if (req.operator is Some && !rules.operators.contains(req.operator->0)) || (
            req.level is Some && !rules.levels.contains(req.level->0)) {
                ends_in(found, StatusCode::BadRequest)
            } else {
                &&& found matches StepView::Wait(pending) && pending.ctx == ctx
                &&& asked(found) matches CallView::UpdateThreshold(active) && {
                    &&& active.id == ActiveValue::Unchanged(row.id)
                    &&& active.insight_tenant_id == ActiveValue::Unchanged(row.insight_tenant_id)
                    &&& active.metric_id == ActiveValue::Unchanged(row.metric_id)
                    &&& writes_named(active.field_name, req.field_name, row.field_name)
                    &&& writes_named(active.operator, req.operator, row.operator)
                    &&& writes_named(active.value, req.value, row.value)
                    &&& writes_named(active.level, req.level, row.level)
                    &&& active.created_at == ActiveValue::Unchanged(row.created_at)
                    &&& active.updated_at == ActiveValue::Unchanged(row.updated_at)
                }
                &&& hearing(rules, found, ReplyView::UpdatedThreshold(after), fresh)
                    matches StepView::Done(Ok(ResponseView::Threshold(threshold)))
                    && shows_threshold(threshold, after)
            }
        }),
{
}

/// A request to delete a threshold asks for the one of that id among those of the tenant
/// on the metric; it is not found if there is none; else the row that was found is
/// removed, and the answer is empty.
pub proof fn law_conversation_of_delete_threshold(
    rules: ThresholdRulesView,
    ctx: SecurityContext,
    metric_id: Uuid,
    tid: Uuid,
    row: thresholds::Row,
    fresh: Uuid,
)
    ensures
        asks(
            delete_threshold_begins(ctx, metric_id, tid),
            ctx,
            threshold_of_tenant(ctx, metric_id, tid),
        ),
        ends_in(
            hearing(
                rules,
                delete_threshold_begins(ctx, metric_id, tid),
                ReplyView::Threshold(None),
                fresh,
            ),
            StatusCode::NotFound,
        ),
        ({
            let found = hearing(
                rules,
                delete_threshold_begins(ctx, metric_id, tid),
                ReplyView::Threshold(Some(row)),
                fresh,
            );
            &&& asks(found, ctx, CallView::DeleteThreshold(row.id))
            &&& hearing(rules, found, ReplyView::Done, fresh) == StepView::Done(
                Ok(ResponseView::NoContent),
            )
        }),
{
}

/// A request for table columns asks for those of the table, if one is given, that belong
/// to the tenant or to all tenants, and shows each that it hears of, in that order.
pub proof fn law_conversation_of_list_columns(
    rules: ThresholdRulesView,
    ctx: SecurityContext,
    table: Option<Seq<char>>,
    found: Seq<table_columns::Row>,
    fresh: Uuid,
)
    ensures
        asks(
            list_columns_begins(ctx, table),
            ctx,
            CallView::AllColumns(ColumnFilter { table, tenant: ctx.insight_tenant_id }),
        ),
        hearing(rules, list_columns_begins(ctx, table), ReplyView::Columns(found), fresh)
            matches StepView::Done(Ok(ResponseView::ColumnList(list))) && {
            &&& list.len() == found.len()
            &&& forall|i: int|
                0 <= i < list.len() ==> shows_column(#[trigger] list[i], found[i])
        },
{
    law_lists_show_row_by_row(Seq::empty(), Seq::empty(), found);
}

/// A request at that stage can make something of the reply.
pub open spec fn is_awaited(stage: StageView, reply: ReplyView) -> bool {
    match stage {
        StageView::ListMetrics => reply is Metrics,
        StageView::GetMetric => reply is Metric,
        StageView::InsertMetric { .. } => reply is Done,
        StageView::ReadNewMetric => reply is Metric,
        StageView::FindMetricToUpdate { .. } => reply is Metric,
        StageView::UpdateMetric => reply is UpdatedMetric,
        StageView::FindMetricToDelete => reply is Metric,
        StageView::DisableMetric => reply is UpdatedMetric,
        StageView::FindMetricToQuery { .. } => reply is Metric,
        StageView::FindThresholdsToQuery { .. } => reply is Thresholds,
        StageView::CompareWithThresholds { .. } => reply is Verdicts,
        StageView::FindMetricOfThresholds { .. } => reply is Metric,
        StageView::ListThresholds => reply is Thresholds,
        StageView::FindMetricOfNewThreshold { .. } => reply is Metric,
        StageView::InsertThreshold { .. } => reply is Done,
        StageView::ReadNewThreshold => reply is Threshold,
        StageView::FindThresholdToUpdate { .. } => reply is Threshold,
        StageView::UpdateThreshold => reply is UpdatedThreshold,
        StageView::FindThresholdToDelete => reply is Threshold,
        StageView::DeleteThreshold => reply is Done,
        StageView::ListColumns => reply is Columns,
    }
}

/// Whatever else a request hears, a failure of the database among it, ends it with an
/// internal server error.
pub proof fn law_other_replies_are_internal_errors(
    rules: ThresholdRulesView,
    pending: PendingView,
    reply: ReplyView,
    fresh: Uuid,
)
    requires
        !is_awaited(pending.stage, reply),
    ensures
        ends_in(next(rules, pending, reply, fresh), StatusCode::InternalServerError),
{
}

} // verus!
