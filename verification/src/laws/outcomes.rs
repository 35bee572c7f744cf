//! What each request is for: how it ends and what it leaves, in terms of the rows that
//! the store holds.

use vstd::prelude::*;

use crate::auth::SecurityContext;
use crate::domain::metric::{
    CreateMetricRequest, MetricSummary, TableColumn, UpdateMetricRequest,
};
use crate::domain::query::QueryRequest;
use crate::domain::threshold::{
    CreateThresholdRequest, Threshold, ThresholdRulesView, UpdateThresholdRequest,
};
use crate::entities::{metrics, table_columns, thresholds};
use crate::handlers::{debug_item, own_thresholds};
use crate::ids::{is_version_7, Uuid};
use crate::json::{Entries, Json};
use crate::laws::answers::{
    is_new_threshold, law_create_metric, law_create_threshold, law_delete_metric, law_delete_threshold,
    law_get_metric, law_list_columns, law_list_metrics, law_list_thresholds, law_query_metric,
    law_update_metric, law_update_threshold,
};
use crate::laws::conversations::{law_debug_row_shows_the_query, shows_query};
use crate::laws::queries::selects_as_asked;
use crate::laws::requests::{served, Request};
use crate::laws::rows::{
    law_lists_show_row_by_row, law_metric_shows_its_row, law_threshold_shows_its_row,
    shows_column, shows_metric, shows_summary, shows_threshold,
};
use crate::mappers::{columns_of, summaries_of, threshold_of, thresholds_of};
use crate::protocol::{ColumnFilter, MetricFilter};
use crate::response::{ResponseView, StatusCode};
use crate::sql::metric_query;
use crate::store::{adds_threshold, Store};

verus! {

/// The database failed, and the request ended with an internal server error.
pub open spec fn failed(failing: bool, outcome: Result<ResponseView, StatusCode>) -> bool {
    failing && outcome == Err::<ResponseView, StatusCode>(StatusCode::InternalServerError)
}

/// The request ended with `status`.
pub open spec fn refused(outcome: Result<ResponseView, StatusCode>, status: StatusCode) -> bool {
    outcome == Err::<ResponseView, StatusCode>(status)
}

/// There is a metric of that id, and it belongs to the tenant.
pub open spec fn is_metric_of(store: Store, tenant: Uuid, id: Uuid) -> bool {
    store.metrics.contains_key(id) && store.metrics[id].insight_tenant_id == tenant
}

/// There is a threshold of that id, and it belongs to the tenant and to the metric.
pub open spec fn is_threshold_of(store: Store, tenant: Uuid, metric_id: Uuid, tid: Uuid) -> bool {
    &&& store.thresholds.contains_key(tid)
    &&& store.thresholds[tid].insight_tenant_id == tenant
    &&& store.thresholds[tid].metric_id == metric_id
}

/// There is a table column of that id, which belongs to the tenant or to no tenant, and
/// to the table, if one is given.
pub open spec fn is_column_for(
    store: Store,
    tenant: Uuid,
    table: Option<Seq<char>>,
    id: Uuid,
) -> bool {
    &&& store.columns.contains_key(id)
    &&& store.columns[id].insight_tenant_id is None || store.columns[id].insight_tenant_id->0
        == tenant
    &&& table is Some ==> store.columns[id].clickhouse_table == table->0
}

/// `ids` are the ids for which `wanted` holds, each once.
pub open spec fn are_all_ids(ids: Seq<Uuid>, wanted: spec_fn(Uuid) -> bool) -> bool {
    &&& forall|i: int, j: int| 0 <= i < j < ids.len() ==> ids[i] != ids[j]
    &&& forall|i: int| 0 <= i < ids.len() ==> wanted(#[trigger] ids[i])
    &&& forall|id: Uuid| #[trigger] wanted(id) ==> ids.contains(id)
    &&& ids.len() == Set::new(wanted).len()
    &&& Set::new(wanted).finite()
}

/// Ids that are different and are just the wanted ones are as many as those.
proof fn lemma_all_ids(ids: Seq<Uuid>, wanted: spec_fn(Uuid) -> bool)
    requires
        ids.no_duplicates(),
        forall|id: Uuid| #[trigger] ids.contains(id) <==> wanted(id),
    ensures
        are_all_ids(ids, wanted),
{
    assert(ids.to_set() =~= Set::new(wanted));
    ids.unique_seq_to_set();
    assert forall|i: int| 0 <= i < ids.len() implies wanted(#[trigger] ids[i]) by {
        assert(ids.contains(ids[i]));
    }
    assert forall|id: Uuid| #[trigger] wanted(id) implies ids.contains(id) by {}
    vstd::seq_lib::seq_to_set_is_finite(ids);
}

/// The ids of the metrics of a list.
pub open spec fn metric_ids(list: Seq<MetricSummary<Seq<char>>>) -> Seq<Uuid> {
    Seq::new(list.len(), |i: int| list[i].id)
}

/// The ids of the thresholds of a list.
pub open spec fn threshold_ids(list: Seq<Threshold<Seq<char>>>) -> Seq<Uuid> {
    Seq::new(list.len(), |i: int| list[i].id)
}

/// The ids of the table columns of a list.
pub open spec fn column_ids(list: Seq<TableColumn<Seq<char>>>) -> Seq<Uuid> {
    Seq::new(list.len(), |i: int| list[i].id)
}

/// A request for metrics is answered with a list that has one entry for each enabled
/// metric of the tenant, with its id, its name and its description, and no other entry.
pub proof fn law_enabled_metrics_are_shown_once_each(
    rules: ThresholdRulesView,
    failing: bool,
    ctx: SecurityContext,
    pre: Store,
    outcome: Result<ResponseView, StatusCode>,
    post: Store,
)
    requires
        pre.well_formed(),
        served(rules, failing, ctx, Request::ListMetrics, pre, outcome, post),
    ensures
        post == pre,
        failed(failing, outcome) || (outcome matches Ok(ResponseView::MetricList(list)) && {
            &&& are_all_ids(
                metric_ids(list),
                |id: Uuid|
                    is_metric_of(pre, ctx.insight_tenant_id, id) && pre.metrics[id].is_enabled,
            )
            &&& forall|i: int|
                0 <= i < list.len() ==> shows_summary(#[trigger] list[i], pre.metrics[list[i].id])
        }),
{
    law_list_metrics(rules, failing, ctx, pre, outcome, post);
    if let Ok(response) = outcome {
        let filter = MetricFilter {
            id: None,
            tenant: Some(ctx.insight_tenant_id),
            enabled_only: true,
        };
        let found = choose|found: Seq<metrics::Row>|
            #![trigger summaries_of(found)]
            pre.lists_metrics(filter, found) && response == ResponseView::MetricList(
                summaries_of(found),
            );
        let list = summaries_of(found);
        law_lists_show_row_by_row(found, Seq::empty(), Seq::empty());
        let ids = metric_ids(list);
        let wanted = |id: Uuid|
            is_metric_of(pre, ctx.insight_tenant_id, id) && pre.metrics[id].is_enabled;
        assert forall|i: int| 0 <= i < found.len() implies {
            &&& #[trigger] pre.has_metric(found[i])
            &&& filter.selects(found[i])
            &&& ids[i] == found[i].id
            &&& shows_summary(list[i], found[i])
        } by {
            assert(found.contains(found[i]));
            assert(shows_summary(list[i], found[i]));
        }
        assert forall|i: int, j: int| 0 <= i < ids.len() && 0 <= j < ids.len() && i != j implies ids[i]
            != ids[j] by {
            assert(pre.has_metric(found[i]) && pre.has_metric(found[j]));
        }
        assert forall|id: Uuid| #[trigger] ids.contains(id) <==> wanted(id) by {
            if ids.contains(id) {
                let i = choose|i: int| 0 <= i < ids.len() && ids[i] == id;
                assert(pre.has_metric(found[i]));
            }
            if wanted(id) {
                assert(pre.has_metric(pre.metrics[id]));
                assert(found.contains(pre.metrics[id]));
                let i = choose|i: int| 0 <= i < found.len() && found[i] == pre.metrics[id];
                assert(pre.has_metric(found[i]));
                assert(ids[i] == id);
            }
        }
        lemma_all_ids(ids, wanted);
        assert forall|i: int| 0 <= i < list.len() implies shows_summary(
            #[trigger] list[i],
            pre.metrics[list[i].id],
        ) by {
            assert(pre.has_metric(found[i]));
        }
    }
}

/// A request for the thresholds of a metric is answered with a list that has one entry
/// for each threshold of the tenant on that metric, with all its columns, and no other
/// entry. It is not found if and only if the tenant has no such metric.
pub proof fn law_thresholds_of_the_metric_are_shown_once_each(
    rules: ThresholdRulesView,
    failing: bool,
    ctx: SecurityContext,
    metric_id: Uuid,
    pre: Store,
    outcome: Result<ResponseView, StatusCode>,
    post: Store,
)
    requires
        pre.well_formed(),
        served(rules, failing, ctx, Request::ListThresholds { metric_id }, pre, outcome, post),
    ensures
        post == pre,
        failed(failing, outcome) || if is_metric_of(pre, ctx.insight_tenant_id, metric_id) {
            outcome matches Ok(ResponseView::ThresholdList(list)) && {
                &&& are_all_ids(
                    threshold_ids(list),
                    |tid: Uuid| is_threshold_of(pre, ctx.insight_tenant_id, metric_id, tid),
                )
                &&& forall|i: int|
                    0 <= i < list.len() ==> (#[trigger] list[i]).metric_id == metric_id
                        && list[i].insight_tenant_id == ctx.insight_tenant_id && shows_threshold(
                        list[i],
                        pre.thresholds[list[i].id],
                    )
            }
        } else {
            refused(outcome, StatusCode::NotFound)
        },
{
    law_list_thresholds(rules, failing, ctx, metric_id, pre, outcome, post);
    if let Ok(response) = outcome {
        let filter = own_thresholds(ctx, metric_id);
        let found = choose|found: Seq<thresholds::Row>|
            #![trigger thresholds_of(found)]
            pre.lists_thresholds(filter, found) && response == ResponseView::ThresholdList(
                thresholds_of(found),
            );
        let list = thresholds_of(found);
        law_lists_show_row_by_row(Seq::empty(), found, Seq::empty());
        let ids = threshold_ids(list);
        let wanted = |tid: Uuid| is_threshold_of(pre, ctx.insight_tenant_id, metric_id, tid);
        assert forall|i: int| 0 <= i < found.len() implies {
            &&& #[trigger] pre.has_threshold(found[i])
            &&& filter.selects(found[i])
            &&& ids[i] == found[i].id
            &&& shows_threshold(list[i], found[i])
        } by {
            assert(found.contains(found[i]));
            assert(shows_threshold(list[i], found[i]));
        }
        assert forall|i: int, j: int| 0 <= i < ids.len() && 0 <= j < ids.len() && i != j implies ids[i]
            != ids[j] by {
            assert(pre.has_threshold(found[i]) && pre.has_threshold(found[j]));
        }
        assert forall|tid: Uuid| #[trigger] ids.contains(tid) <==> wanted(tid) by {
            if ids.contains(tid) {
                let i = choose|i: int| 0 <= i < ids.len() && ids[i] == tid;
                assert(pre.has_threshold(found[i]));
            }
            if wanted(tid) {
                assert(pre.has_threshold(pre.thresholds[tid]));
                assert(found.contains(pre.thresholds[tid]));
                let i = choose|i: int| 0 <= i < found.len() && found[i] == pre.thresholds[tid];
                assert(pre.has_threshold(found[i]));
                assert(ids[i] == tid);
            }
        }
        lemma_all_ids(ids, wanted);
        assert forall|i: int| 0 <= i < list.len() implies (#[trigger] list[i]).metric_id == metric_id
            && list[i].insight_tenant_id == ctx.insight_tenant_id && shows_threshold(
            list[i],
            pre.thresholds[list[i].id],
        ) by {
            assert(pre.has_threshold(found[i]));
        }
    }
}

/// A request for table columns is answered with a list that has one entry for each
/// column that belongs to the tenant or to all tenants, and to the table if one is
/// given, with its names and its description, and no other entry.
pub proof fn law_columns_are_shown_once_each(
    rules: ThresholdRulesView,
    failing: bool,
    ctx: SecurityContext,
    table: Option<Seq<char>>,
    pre: Store,
    outcome: Result<ResponseView, StatusCode>,
    post: Store,
)
    requires
        pre.well_formed(),
        served(rules, failing, ctx, Request::ListColumns { table }, pre, outcome, post),
    ensures
        post == pre,
        failed(failing, outcome) || (outcome matches Ok(ResponseView::ColumnList(list)) && {
            &&& are_all_ids(
                column_ids(list),
                |id: Uuid| is_column_for(pre, ctx.insight_tenant_id, table, id),
            )
            &&& forall|i: int|
                0 <= i < list.len() ==> shows_column(#[trigger] list[i], pre.columns[list[i].id])
        }),
{
    law_list_columns(rules, failing, ctx, table, pre, outcome, post);
    if let Ok(response) = outcome {
        let filter = ColumnFilter { table, tenant: ctx.insight_tenant_id };
        let found = choose|found: Seq<table_columns::Row>|
            #![trigger columns_of(found)]
            pre.lists_columns(filter, found) && response == ResponseView::ColumnList(
                columns_of(found),
            );
        let list = columns_of(found);
        law_lists_show_row_by_row(Seq::empty(), Seq::empty(), found);
        let ids = column_ids(list);
        let wanted = |id: Uuid| is_column_for(pre, ctx.insight_tenant_id, table, id);
        assert forall|i: int| 0 <= i < found.len() implies {
            &&& #[trigger] pre.has_column(found[i])
            &&& filter.selects(found[i])
            &&& ids[i] == found[i].id
            &&& shows_column(list[i], found[i])
        } by {
            assert(found.contains(found[i]));
            assert(shows_column(list[i], found[i]));
        }
        assert forall|i: int, j: int| 0 <= i < ids.len() && 0 <= j < ids.len() && i != j implies ids[i]
            != ids[j] by {
            assert(pre.has_column(found[i]) && pre.has_column(found[j]));
        }
        assert forall|id: Uuid| #[trigger] ids.contains(id) <==> wanted(id) by {
            if ids.contains(id) {
                let i = choose|i: int| 0 <= i < ids.len() && ids[i] == id;
                assert(pre.has_column(found[i]));
            }
            if wanted(id) {
                assert(pre.has_column(pre.columns[id]));
                assert(found.contains(pre.columns[id]));
                let i = choose|i: int| 0 <= i < found.len() && found[i] == pre.columns[id];
                assert(pre.has_column(found[i]));
                assert(ids[i] == id);
            }
        }
        lemma_all_ids(ids, wanted);
        assert forall|i: int| 0 <= i < list.len() implies shows_column(
            #[trigger] list[i],
            pre.columns[list[i].id],
        ) by {
            assert(pre.has_column(found[i]));
        }
    }
}

/// A request for a metric shows all columns of the metric if the tenant has it, and is
/// not found otherwise.
pub proof fn law_metric_is_shown_to_its_tenant(
    rules: ThresholdRulesView,
    failing: bool,
    ctx: SecurityContext,
    id: Uuid,
    pre: Store,
    outcome: Result<ResponseView, StatusCode>,
    post: Store,
)
    requires
        pre.well_formed(),
        served(rules, failing, ctx, Request::GetMetric { id }, pre, outcome, post),
    ensures
        post == pre,
        failed(failing, outcome) || if is_metric_of(pre, ctx.insight_tenant_id, id) {
            outcome matches Ok(ResponseView::Metric(metric)) && shows_metric(
                metric,
                pre.metrics[id],
            )
        } else {
            refused(outcome, StatusCode::NotFound)
        },
{
    law_get_metric(rules, failing, ctx, id, pre, outcome, post);
    law_metric_shows_its_row(pre.metrics[id]);
}

/// A request to create a metric leaves one row more, of the id and the tenant, with what
/// was asked for, enabled, and shows all columns of it.
pub proof fn law_metric_is_created_as_asked_for(
    rules: ThresholdRulesView,
    failing: bool,
    ctx: SecurityContext,
    id: Uuid,
    req: CreateMetricRequest<Seq<char>>,
    pre: Store,
    outcome: Result<ResponseView, StatusCode>,
    post: Store,
)
    requires
        pre.well_formed(),
        served(rules, failing, ctx, Request::CreateMetric { id, req }, pre, outcome, post),
    ensures
        failed(failing, outcome) || (outcome matches Ok(ResponseView::CreatedMetric(metric)) && {
            let row = post.metrics[id];
            &&& !pre.metrics.contains_key(id)
            &&& post.metrics == pre.metrics.insert(id, row)
            &&& post.thresholds == pre.thresholds
            &&& post.columns == pre.columns
            &&& row.id == id
            &&& row.insight_tenant_id == ctx.insight_tenant_id
            &&& row.name == req.name
            &&& row.description == req.description
            &&& row.query_ref == req.query_ref
            &&& row.is_enabled
            &&& shows_metric(metric, row)
        }),
{
    law_create_metric(rules, failing, ctx, id, req, pre, outcome, post);
    law_metric_shows_its_row(post.metrics[id]);
}

/// `now` is what was named, or else what was held.
pub open spec fn named_or_held<T>(now: T, named: Option<T>, held: T) -> bool {
    &&& named is Some ==> now == named->0
    &&& named is None ==> now == held
}

/// A request to change a metric that the tenant has changes what it names in that row,
/// and nothing else but the time of the last change, and shows all columns of the row as
/// it is left; it is not found if the tenant has no such metric, and then nothing
/// changes.
pub proof fn law_metric_is_changed_as_asked_for(
    rules: ThresholdRulesView,
    failing: bool,
    ctx: SecurityContext,
    id: Uuid,
    req: UpdateMetricRequest<Seq<char>>,
    pre: Store,
    outcome: Result<ResponseView, StatusCode>,
    post: Store,
)
    requires
        pre.well_formed(),
        served(rules, failing, ctx, Request::UpdateMetric { id, req }, pre, outcome, post),
    ensures
        failed(failing, outcome) || if is_metric_of(pre, ctx.insight_tenant_id, id) {
            outcome matches Ok(ResponseView::Metric(metric)) && {
                let before = pre.metrics[id];
                let row = post.metrics[id];
                &&& post.metrics == pre.metrics.insert(id, row)
                &&& post.thresholds == pre.thresholds
                &&& post.columns == pre.columns
                &&& row.id == id
                &&& row.insight_tenant_id == before.insight_tenant_id
                &&& named_or_held(row.name, req.name, before.name)
                &&& req.description is Some ==> row.description == req.description
                &&& req.description is None ==> row.description == before.description
                &&& named_or_held(row.query_ref, req.query_ref, before.query_ref)
                &&& named_or_held(row.is_enabled, req.is_enabled, before.is_enabled)
                &&& row.created_at == before.created_at
                &&& shows_metric(metric, row)
            }
        } else {
            refused(outcome, StatusCode::NotFound) && post == pre
        },
{
    law_update_metric(rules, failing, ctx, id, req, pre, outcome, post);
    law_metric_shows_its_row(post.metrics[id]);
}

/// A request to delete a metric that the tenant has leaves its row, disabled, changes
/// nothing else but the time of the last change, and is answered without content; it is
/// not found if the tenant has no such metric, and then nothing changes.
pub proof fn law_metric_is_deleted_by_disabling_it(
    rules: ThresholdRulesView,
    failing: bool,
    ctx: SecurityContext,
    id: Uuid,
    pre: Store,
    outcome: Result<ResponseView, StatusCode>,
    post: Store,
)
    requires
        pre.well_formed(),
        served(rules, failing, ctx, Request::DeleteMetric { id }, pre, outcome, post),
    ensures
        failed(failing, outcome) || if is_metric_of(pre, ctx.insight_tenant_id, id) {
            let before = pre.metrics[id];
            let row = post.metrics[id];
            &&& outcome == Ok::<ResponseView, StatusCode>(ResponseView::NoContent)
            &&& post.metrics == pre.metrics.insert(id, row)
            &&& post.thresholds == pre.thresholds
            &&& post.columns == pre.columns
            &&& row.id == id
            &&& row.insight_tenant_id == before.insight_tenant_id
            &&& row.name == before.name
            &&& row.description == before.description
            &&& row.query_ref == before.query_ref
            &&& !row.is_enabled
            &&& row.created_at == before.created_at
        } else {
            refused(outcome, StatusCode::NotFound) && post == pre
        },
{
    law_delete_metric(rules, failing, ctx, id, pre, outcome, post);
}

/// A query of an enabled metric of the tenant is answered with one row, which shows the
/// statement for the text of the metric, the tenant and the request, and under
/// `_thresholds` an object without entries, on a page that has none after it. It is not
/// found if the tenant has no such metric or the metric is disabled.
pub proof fn law_query_is_answered_with_its_statement(
    rules: ThresholdRulesView,
    failing: bool,
    ctx: SecurityContext,
    id: Uuid,
    req: QueryRequest<Seq<char>>,
    pre: Store,
    outcome: Result<ResponseView, StatusCode>,
    post: Store,
)
    requires
        pre.well_formed(),
        served(rules, failing, ctx, Request::QueryMetric { id, req }, pre, outcome, post),
    ensures
        post == pre,
        failed(failing, outcome) || if is_metric_of(pre, ctx.insight_tenant_id, id)
            && pre.metrics[id].is_enabled {
            outcome matches Ok(ResponseView::Query(answer)) && {
                &&& answer.items.len() == 1
                &&& shows_query(
                    answer.items[0],
                    pre.metrics[id].query_ref,
                    ctx.insight_tenant_id,
                    req,
                )
                &&& answer.items[0].contains_key("_thresholds"@)
                &&& answer.items[0]["_thresholds"@] == Json::Object(Entries::empty())
                &&& !answer.page_info.has_next
                &&& answer.page_info.cursor is None
            }
        } else {
            refused(outcome, StatusCode::NotFound)
        },
{
    law_query_metric(rules, failing, ctx, id, req, pre, outcome, post);
    let query_ref = pre.metrics[id].query_ref;
    let row = debug_item(metric_query(query_ref, ctx.insight_tenant_id, req));
    law_debug_row_shows_the_query(query_ref, ctx.insight_tenant_id, req);
    lemma_levels_keep_the_query(row, query_ref, ctx.insight_tenant_id, req);
}

/// A row that shows a query still does with levels added to it.
proof fn lemma_levels_keep_the_query(
    row: Entries,
    query_ref: Seq<char>,
    tenant: Uuid,
    req: QueryRequest<Seq<char>>,
)
    requires
        shows_query(row, query_ref, tenant, req),
    ensures
        shows_query(
            row.insert("_thresholds"@, Json::Object(Entries::empty())),
            query_ref,
            tenant,
            req,
        ),
{
    reveal_strlit("_debug_sql");
    reveal_strlit("_debug_params");
    reveal_strlit("_note");
    reveal_strlit("_thresholds");
    assert("_debug_sql"@.len() == 10);
    assert("_debug_params"@.len() == 13);
    assert("_note"@.len() == 5);
    assert("_thresholds"@.len() == 11);
    let (sql, params) = choose|sql: Seq<char>, params: Seq<Seq<char>>|
        {
            &&& #[trigger] selects_as_asked(
                sql,
                params,
                query_ref,
                tenant,
                req,
            )
            &&& row["_debug_sql"@] == Json::Text(sql)
            &&& row["_debug_params"@] matches Json::Array(list) && {
                &&& list.len() == params.len()
                &&& forall|i: int|
                    0 <= i < list.len() ==> #[trigger] list[i] == Json::Text(params[i])
            }
        };
    assert(selects_as_asked(sql, params, query_ref, tenant, req));
}

/// The operator and the level are both allowed.
pub open spec fn both_allowed(
    rules: ThresholdRulesView,
    operator: Seq<char>,
    level: Seq<char>,
) -> bool {
    rules.operators.contains(operator) && rules.levels.contains(level)
}

/// A request to create a threshold on a metric of the tenant, with an allowed operator
/// and an allowed level, leaves one row more, under a new id, of the tenant and the
/// metric, with what was asked for, and shows all columns of it. With another operator
/// or level it is bad; on another metric it is not found; and then nothing changes.
pub proof fn law_threshold_is_created_as_asked_for(
    rules: ThresholdRulesView,
    failing: bool,
    ctx: SecurityContext,
    metric_id: Uuid,
    req: CreateThresholdRequest<Seq<char>>,
    pre: Store,
    outcome: Result<ResponseView, StatusCode>,
    post: Store,
)
    requires
        pre.well_formed(),
        served(rules, failing, ctx, Request::CreateThreshold { metric_id, req }, pre, outcome, post),
    ensures
        failed(failing, outcome) || if !is_metric_of(pre, ctx.insight_tenant_id, metric_id) {
            refused(outcome, StatusCode::NotFound) && post == pre
        } else if !both_allowed(rules, req.operator, req.level) {
            refused(outcome, StatusCode::BadRequest) && post == pre
        } else {
            outcome matches Ok(ResponseView::CreatedThreshold(threshold)) && {
                let row = post.thresholds[threshold.id];
                &&& !pre.thresholds.contains_key(threshold.id)
                &&& is_version_7(threshold.id)
                &&& post.thresholds == pre.thresholds.insert(threshold.id, row)
                &&& post.metrics == pre.metrics
                &&& post.columns == pre.columns
                &&& row.insight_tenant_id == ctx.insight_tenant_id
                &&& row.metric_id == metric_id
                &&& row.field_name == req.field_name
                &&& row.operator == req.operator
                &&& row.value == req.value
                &&& row.level == req.level
                &&& shows_threshold(threshold, row)
            }
        },
{
    law_create_threshold(rules, failing, ctx, metric_id, req, pre, outcome, post);
    if let Ok(response) = outcome {
        let row = choose|row: thresholds::Row| #[trigger]
            adds_threshold(pre, row, post) && response == ResponseView::CreatedThreshold(
                threshold_of(row),
            ) && is_version_7(row.id) && is_new_threshold(
                row,
                ctx,
                metric_id,
                req,
            );
        law_threshold_shows_its_row(row);
    }
}

/// A request to change a threshold that the tenant has on the metric is bad if and only
/// if it names an operator or a level that is not allowed; else it changes what it names
/// in that row, and nothing else but the time of the last change, and shows all columns
/// of the row as it is left. It is not found if the tenant has no such threshold on the
/// metric. Where it is refused nothing changes.
pub proof fn law_threshold_is_changed_as_asked_for(
    rules: ThresholdRulesView,
    failing: bool,
    ctx: SecurityContext,
    metric_id: Uuid,
    tid: Uuid,
    req: UpdateThresholdRequest<Seq<char>>,
    pre: Store,
    outcome: Result<ResponseView, StatusCode>,
    post: Store,
)
    requires
        pre.well_formed(),
        served(
            rules,
            failing,
            ctx,
            Request::UpdateThreshold { metric_id, tid, req },
            pre,
            outcome,
            post,
        ),
    ensures
        failed(failing, outcome) || if !is_threshold_of(
            pre,
            ctx.insight_tenant_id,
            metric_id,
            tid,
        ) {
            refused(outcome, StatusCode::NotFound) && post == pre
        } else if (req.operator is Some && !rules.operators.contains(req.operator->0)) || (
        req.level is Some && !rules.levels.contains(req.level->0)) {
            refused(outcome, StatusCode::BadRequest) && post == pre
        } else {
            outcome matches Ok(ResponseView::Threshold(threshold)) && {
                let before = pre.thresholds[tid];
                let row = post.thresholds[tid];
                &&& post.thresholds == pre.thresholds.insert(tid, row)
                &&& post.metrics == pre.metrics
                &&& post.columns == pre.columns
                &&& row.id == tid
                &&& row.insight_tenant_id == before.insight_tenant_id
                &&& row.metric_id == before.metric_id
                &&& named_or_held(row.field_name, req.field_name, before.field_name)
                &&& named_or_held(row.operator, req.operator, before.operator)
                &&& named_or_held(row.value, req.value, before.value)
                &&& named_or_held(row.level, req.level, before.level)
                &&& row.created_at == before.created_at
                &&& shows_threshold(threshold, row)
            }
        },
{
    law_update_threshold(rules, failing, ctx, metric_id, tid, req, pre, outcome, post);
    law_threshold_shows_its_row(post.thresholds[tid]);
}

/// A request to delete a threshold that the tenant has on the metric removes that row
/// and no other, and is answered without content; it is not found if the tenant has no
/// such threshold on the metric, and then nothing changes.
pub proof fn law_threshold_is_deleted_by_removing_it(
    rules: ThresholdRulesView,
    failing: bool,
    ctx: SecurityContext,
    metric_id: Uuid,
    tid: Uuid,
    pre: Store,
    outcome: Result<ResponseView, StatusCode>,
    post: Store,
)
    requires
        pre.well_formed(),
        served(
            rules,
            failing,
            ctx,
            Request::DeleteThreshold { metric_id, tid },
            pre,
            outcome,
            post,
        ),
    ensures
        failed(failing, outcome) || if is_threshold_of(
            pre,
            ctx.insight_tenant_id,
            metric_id,
            tid,
        ) {
            &&& outcome == Ok::<ResponseView, StatusCode>(ResponseView::NoContent)
            &&& post.thresholds == pre.thresholds.remove(tid)
            &&& post.metrics == pre.metrics
            &&& post.columns == pre.columns
        } else {
            refused(outcome, StatusCode::NotFound) && post == pre
        },
{
    law_delete_threshold(rules, failing, ctx, metric_id, tid, pre, outcome, post);
}

} // verus!
