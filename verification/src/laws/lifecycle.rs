//! What requests see of the requests before them, on a store that nothing else writes
//! to.

use vstd::prelude::*;

use crate::auth::SecurityContext;
use crate::domain::metric::{
    CreateMetricRequest, Metric, MetricSummary, TableColumn, UpdateMetricRequest,
};
use crate::domain::query::QueryRequest;
use crate::domain::threshold::{
    CreateThresholdRequest, Threshold, ThresholdRulesView, UpdateThresholdRequest,
};
use crate::entities::{metrics, table_columns, thresholds};
use crate::handlers::own_thresholds;
use crate::ids::Uuid;
use crate::laws::answers::{
    law_create_metric, law_create_threshold, law_delete_metric, law_delete_threshold,
    law_get_metric, law_list_columns, law_list_metrics, law_list_thresholds, law_query_metric,
    law_update_metric, law_update_threshold,
};
use crate::laws::requests::{served, Request};
use crate::laws::tenancy::law_tenants_are_kept_apart;
use crate::mappers::{
    columns_of, metric_of, summaries_of, summary_of, threshold_of, thresholds_of,
};
use crate::protocol::{ColumnFilter, MetricFilter};
use crate::response::{ResponseView, StatusCode};
use crate::store::{adds_threshold, Store};

verus! {

/// A request ended as `expected`, or the database failed.
pub open spec fn ended_as(
    failing: bool,
    outcome: Result<ResponseView, StatusCode>,
    expected: Result<ResponseView, StatusCode>,
) -> bool {
    outcome == expected || (failing && outcome == Err::<ResponseView, StatusCode>(
        StatusCode::InternalServerError,
    ))
}

/// How a metric appears in a list.
pub open spec fn as_summary<S>(metric: Metric<S>) -> MetricSummary<S> {
    MetricSummary { id: metric.id, name: metric.name, description: metric.description }
}

/// A metric that has been created is read back by its tenant as it was answered, and is
/// not found by any other tenant.
pub proof fn law_created_metric_is_read_back(
    rules: ThresholdRulesView,
    failing: bool,
    ctx: SecurityContext,
    id: Uuid,
    req: CreateMetricRequest<Seq<char>>,
    metric: Metric<Seq<char>>,
    pre: Store,
    mid: Store,
    reader: SecurityContext,
    outcome: Result<ResponseView, StatusCode>,
    post: Store,
)
    requires
        pre.well_formed(),
        served(
            rules,
            failing,
            ctx,
            Request::CreateMetric { id, req },
            pre,
            Ok(ResponseView::CreatedMetric(metric)),
            mid,
        ),
        served(rules, failing, reader, Request::GetMetric { id }, mid, outcome, post),
    ensures
        ended_as(
            failing,
            outcome,
            if reader == ctx {
                Ok(ResponseView::Metric(metric))
            } else {
                Err(StatusCode::NotFound)
            },
        ),
        metric.id == id,
        metric.insight_tenant_id == ctx.insight_tenant_id,
        metric.name == req.name,
        metric.description == req.description,
        metric.query_ref == req.query_ref,
        metric.is_enabled,
{
    let created = Ok(ResponseView::CreatedMetric(metric));
    law_create_metric(rules, failing, ctx, id, req, pre, created, mid);
    law_tenants_are_kept_apart(
        rules,
        failing,
        ctx,
        Request::CreateMetric { id, req },
        pre,
        created,
        mid,
    );
    law_get_metric(rules, failing, reader, id, mid, outcome, post);
}

/// A metric that has been created is among the metrics that its tenant is shown next.
pub proof fn law_created_metric_is_listed(
    rules: ThresholdRulesView,
    failing: bool,
    ctx: SecurityContext,
    id: Uuid,
    req: CreateMetricRequest<Seq<char>>,
    metric: Metric<Seq<char>>,
    pre: Store,
    mid: Store,
    list: Seq<MetricSummary<Seq<char>>>,
    post: Store,
)
    requires
        pre.well_formed(),
        served(
            rules,
            failing,
            ctx,
            Request::CreateMetric { id, req },
            pre,
            Ok(ResponseView::CreatedMetric(metric)),
            mid,
        ),
        served(
            rules,
            failing,
            ctx,
            Request::ListMetrics,
            mid,
            Ok(ResponseView::MetricList(list)),
            post,
        ),
    ensures
        list.contains(as_summary(metric)),
{
    law_create_metric(
        rules,
        failing,
        ctx,
        id,
        req,
        pre,
        Ok(ResponseView::CreatedMetric(metric)),
        mid,
    );
    law_list_metrics(rules, failing, ctx, mid, Ok(ResponseView::MetricList(list)), post);
    let filter = MetricFilter {
        id: None,
        tenant: Some(ctx.insight_tenant_id),
        enabled_only: true,
    };
    let found = choose|found: Seq<metrics::Row>|
        #![trigger summaries_of(found)]
        mid.lists_metrics(filter, found) && list == summaries_of(found);
    let row = mid.metrics[id];
    assert(mid.has_metric(row) && filter.selects(row));
    assert(found.contains(row));
    let i = choose|i: int| 0 <= i < found.len() && found[i] == row;
    assert(summaries_of(found)[i] == as_summary(metric));
}

/// A change of a metric that has been answered is read back as it was answered.
pub proof fn law_updated_metric_is_read_back(
    rules: ThresholdRulesView,
    failing: bool,
    ctx: SecurityContext,
    id: Uuid,
    req: UpdateMetricRequest<Seq<char>>,
    metric: Metric<Seq<char>>,
    pre: Store,
    mid: Store,
    outcome: Result<ResponseView, StatusCode>,
    post: Store,
)
    requires
        pre.well_formed(),
        served(
            rules,
            failing,
            ctx,
            Request::UpdateMetric { id, req },
            pre,
            Ok(ResponseView::Metric(metric)),
            mid,
        ),
        served(rules, failing, ctx, Request::GetMetric { id }, mid, outcome, post),
    ensures
        ended_as(failing, outcome, Ok(ResponseView::Metric(metric))),
{
    let updated = Ok(ResponseView::Metric(metric));
    law_update_metric(rules, failing, ctx, id, req, pre, updated, mid);
    law_tenants_are_kept_apart(
        rules,
        failing,
        ctx,
        Request::UpdateMetric { id, req },
        pre,
        updated,
        mid,
    );
    law_get_metric(rules, failing, ctx, id, mid, outcome, post);
}

/// Two rows of a metric differ in the time of the last change at most.
pub open spec fn same_metric(one: metrics::Row, other: metrics::Row) -> bool {
    one == metrics::Model { updated_at: one.updated_at, ..other }
}

/// A change of a metric that names nothing changes nothing.
pub proof fn law_empty_update_changes_nothing(
    rules: ThresholdRulesView,
    failing: bool,
    ctx: SecurityContext,
    id: Uuid,
    pre: Store,
    response: ResponseView,
    post: Store,
)
    requires
        pre.well_formed(),
        served(
            rules,
            failing,
            ctx,
            Request::UpdateMetric {
                id,
                req: UpdateMetricRequest {
                    name: None,
                    description: None,
                    query_ref: None,
                    is_enabled: None,
                },
            },
            pre,
            Ok(response),
            post,
        ),
    ensures
        same_metric(post.metrics[id], pre.metrics[id]),
        post == (Store { metrics: pre.metrics.insert(id, post.metrics[id]), ..pre }),
{
    let req = UpdateMetricRequest {
        name: None,
        description: None,
        query_ref: None,
        is_enabled: None,
    };
    law_update_metric(rules, failing, ctx, id, req, pre, Ok(response), post);
}

/// A metric that has been deleted is shown by its id, disabled and otherwise as before.
pub proof fn law_deleted_metric_is_shown_disabled(
    rules: ThresholdRulesView,
    failing: bool,
    ctx: SecurityContext,
    id: Uuid,
    pre: Store,
    mid: Store,
    metric: Metric<Seq<char>>,
    post: Store,
)
    requires
        pre.well_formed(),
        served(
            rules,
            failing,
            ctx,
            Request::DeleteMetric { id },
            pre,
            Ok(ResponseView::NoContent),
            mid,
        ),
        served(
            rules,
            failing,
            ctx,
            Request::GetMetric { id },
            mid,
            Ok(ResponseView::Metric(metric)),
            post,
        ),
    ensures
        !metric.is_enabled,
        metric == (Metric {
            is_enabled: false,
            updated_at: metric.updated_at,
            ..metric_of(pre.metrics[id])
        }),
{
    let deleted = Ok(ResponseView::NoContent);
    law_delete_metric(rules, failing, ctx, id, pre, deleted, mid);
    law_tenants_are_kept_apart(
        rules,
        failing,
        ctx,
        Request::DeleteMetric { id },
        pre,
        deleted,
        mid,
    );
    law_get_metric(rules, failing, ctx, id, mid, Ok(ResponseView::Metric(metric)), post);
}

/// A metric that has been deleted is in no list of metrics any more.
pub proof fn law_deleted_metric_is_not_listed(
    rules: ThresholdRulesView,
    failing: bool,
    ctx: SecurityContext,
    id: Uuid,
    pre: Store,
    mid: Store,
    list: Seq<MetricSummary<Seq<char>>>,
    post: Store,
)
    requires
        pre.well_formed(),
        served(
            rules,
            failing,
            ctx,
            Request::DeleteMetric { id },
            pre,
            Ok(ResponseView::NoContent),
            mid,
        ),
        served(
            rules,
            failing,
            ctx,
            Request::ListMetrics,
            mid,
            Ok(ResponseView::MetricList(list)),
            post,
        ),
    ensures
        forall|i: int| 0 <= i < list.len() ==> (#[trigger] list[i]).id != id,
{
    law_delete_metric(rules, failing, ctx, id, pre, Ok(ResponseView::NoContent), mid);
    law_list_metrics(rules, failing, ctx, mid, Ok(ResponseView::MetricList(list)), post);
    let filter = MetricFilter {
        id: None,
        tenant: Some(ctx.insight_tenant_id),
        enabled_only: true,
    };
    let found = choose|found: Seq<metrics::Row>|
        #![trigger summaries_of(found)]
        mid.lists_metrics(filter, found) && list == summaries_of(found);
    assert forall|i: int| 0 <= i < list.len() implies (#[trigger] list[i]).id != id by {
        assert(list[i] == summary_of(found[i]));
        assert(found.contains(found[i]));
        assert(mid.has_metric(found[i]));
    }
}

/// A metric that has been deleted cannot be queried any more.
pub proof fn law_deleted_metric_cannot_be_queried(
    rules: ThresholdRulesView,
    failing: bool,
    ctx: SecurityContext,
    id: Uuid,
    pre: Store,
    mid: Store,
    req: QueryRequest<Seq<char>>,
    outcome: Result<ResponseView, StatusCode>,
    post: Store,
)
    requires
        pre.well_formed(),
        served(
            rules,
            failing,
            ctx,
            Request::DeleteMetric { id },
            pre,
            Ok(ResponseView::NoContent),
            mid,
        ),
        served(rules, failing, ctx, Request::QueryMetric { id, req }, mid, outcome, post),
    ensures
        ended_as(failing, outcome, Err(StatusCode::NotFound)),
{
    let deleted = Ok(ResponseView::NoContent);
    law_delete_metric(rules, failing, ctx, id, pre, deleted, mid);
    law_tenants_are_kept_apart(
        rules,
        failing,
        ctx,
        Request::DeleteMetric { id },
        pre,
        deleted,
        mid,
    );
    law_query_metric(rules, failing, ctx, id, req, mid, outcome, post);
}

/// Enabling a metric takes its deletion back: it is as it was before, if it was enabled.
pub proof fn law_enabling_takes_deletion_back(
    rules: ThresholdRulesView,
    failing: bool,
    ctx: SecurityContext,
    id: Uuid,
    pre: Store,
    mid: Store,
    response: ResponseView,
    post: Store,
)
    requires
        pre.well_formed(),
        pre.metrics[id].is_enabled,
        served(
            rules,
            failing,
            ctx,
            Request::DeleteMetric { id },
            pre,
            Ok(ResponseView::NoContent),
            mid,
        ),
        served(
            rules,
            failing,
            ctx,
            Request::UpdateMetric {
                id,
                req: UpdateMetricRequest {
                    name: None,
                    description: None,
                    query_ref: None,
                    is_enabled: Some(true),
                },
            },
            mid,
            Ok(response),
            post,
        ),
    ensures
        same_metric(post.metrics[id], pre.metrics[id]),
        post == (Store { metrics: pre.metrics.insert(id, post.metrics[id]), ..pre }),
{
    let deleted = Ok(ResponseView::NoContent);
    law_delete_metric(rules, failing, ctx, id, pre, deleted, mid);
    law_tenants_are_kept_apart(
        rules,
        failing,
        ctx,
        Request::DeleteMetric { id },
        pre,
        deleted,
        mid,
    );
    let req = UpdateMetricRequest {
        name: None,
        description: None,
        query_ref: None,
        is_enabled: Some(true),
    };
    law_update_metric(rules, failing, ctx, id, req, mid, Ok(response), post);
    assert(post.metrics =~= pre.metrics.insert(id, post.metrics[id]));
}

/// To delete a metric that has been deleted is answered as before and changes nothing.
pub proof fn law_deleting_a_metric_again_changes_nothing(
    rules: ThresholdRulesView,
    failing: bool,
    ctx: SecurityContext,
    id: Uuid,
    pre: Store,
    mid: Store,
    outcome: Result<ResponseView, StatusCode>,
    post: Store,
)
    requires
        pre.well_formed(),
        served(
            rules,
            failing,
            ctx,
            Request::DeleteMetric { id },
            pre,
            Ok(ResponseView::NoContent),
            mid,
        ),
        served(rules, failing, ctx, Request::DeleteMetric { id }, mid, outcome, post),
    ensures
        ended_as(failing, outcome, Ok(ResponseView::NoContent)),
        outcome is Ok ==> {
            &&& same_metric(post.metrics[id], mid.metrics[id])
            &&& post == (Store { metrics: mid.metrics.insert(id, post.metrics[id]), ..mid })
        },
{
    let deleted = Ok(ResponseView::NoContent);
    law_delete_metric(rules, failing, ctx, id, pre, deleted, mid);
    law_tenants_are_kept_apart(
        rules,
        failing,
        ctx,
        Request::DeleteMetric { id },
        pre,
        deleted,
        mid,
    );
    law_delete_metric(rules, failing, ctx, id, mid, outcome, post);
}

/// A metric that has been deleted keeps its thresholds, and they are still shown.
pub proof fn law_deleted_metric_keeps_its_thresholds(
    rules: ThresholdRulesView,
    failing: bool,
    ctx: SecurityContext,
    id: Uuid,
    pre: Store,
    mid: Store,
    outcome: Result<ResponseView, StatusCode>,
    post: Store,
)
    requires
        pre.well_formed(),
        served(
            rules,
            failing,
            ctx,
            Request::DeleteMetric { id },
            pre,
            Ok(ResponseView::NoContent),
            mid,
        ),
        served(rules, failing, ctx, Request::ListThresholds { metric_id: id }, mid, outcome, post),
    ensures
        mid.thresholds == pre.thresholds,
        match outcome {
            Ok(response) => exists|found: Seq<thresholds::Row>|
                #![trigger thresholds_of(found)]
                {
                    &&& pre.lists_thresholds(own_thresholds(ctx, id), found)
                    &&& response == ResponseView::ThresholdList(thresholds_of(found))
                },
            Err(status) => failing && status == StatusCode::InternalServerError,
        },
{
    let deleted = Ok(ResponseView::NoContent);
    law_delete_metric(rules, failing, ctx, id, pre, deleted, mid);
    law_tenants_are_kept_apart(
        rules,
        failing,
        ctx,
        Request::DeleteMetric { id },
        pre,
        deleted,
        mid,
    );
    law_list_thresholds(rules, failing, ctx, id, mid, outcome, post);
    if let Ok(response) = outcome {
        let found = choose|found: Seq<thresholds::Row>|
            #![trigger thresholds_of(found)]
            mid.lists_thresholds(own_thresholds(ctx, id), found) && response
                == ResponseView::ThresholdList(thresholds_of(found));
        assert forall|row: thresholds::Row| #[trigger] pre.has_threshold(row)
            == mid.has_threshold(row) by {}
        assert(pre.lists_thresholds(own_thresholds(ctx, id), found));
    }
}

/// A change of a metric that is made twice is the same as the change made once.
pub proof fn law_repeated_update_changes_nothing(
    rules: ThresholdRulesView,
    failing: bool,
    ctx: SecurityContext,
    id: Uuid,
    req: UpdateMetricRequest<Seq<char>>,
    first: ResponseView,
    pre: Store,
    mid: Store,
    second: ResponseView,
    post: Store,
)
    requires
        pre.well_formed(),
        served(rules, failing, ctx, Request::UpdateMetric { id, req }, pre, Ok(first), mid),
        served(rules, failing, ctx, Request::UpdateMetric { id, req }, mid, Ok(second), post),
    ensures
        same_metric(post.metrics[id], mid.metrics[id]),
        post == (Store { metrics: mid.metrics.insert(id, post.metrics[id]), ..mid }),
{
    law_update_metric(rules, failing, ctx, id, req, pre, Ok(first), mid);
    law_tenants_are_kept_apart(
        rules,
        failing,
        ctx,
        Request::UpdateMetric { id, req },
        pre,
        Ok(first),
        mid,
    );
    law_update_metric(rules, failing, ctx, id, req, mid, Ok(second), post);
}

/// A threshold that has been created is among those of its metric that its tenant is
/// shown next, as it was answered.
pub proof fn law_created_threshold_is_listed(
    rules: ThresholdRulesView,
    failing: bool,
    ctx: SecurityContext,
    metric_id: Uuid,
    req: CreateThresholdRequest<Seq<char>>,
    threshold: Threshold<Seq<char>>,
    pre: Store,
    mid: Store,
    list: Seq<Threshold<Seq<char>>>,
    post: Store,
)
    requires
        pre.well_formed(),
        served(
            rules,
            failing,
            ctx,
            Request::CreateThreshold { metric_id, req },
            pre,
            Ok(ResponseView::CreatedThreshold(threshold)),
            mid,
        ),
        served(
            rules,
            failing,
            ctx,
            Request::ListThresholds { metric_id },
            mid,
            Ok(ResponseView::ThresholdList(list)),
            post,
        ),
    ensures
        list.contains(threshold),
        threshold.metric_id == metric_id,
        threshold.field_name == req.field_name,
        threshold.operator == req.operator,
        threshold.value == req.value,
        threshold.level == req.level,
{
    let created = Ok(ResponseView::CreatedThreshold(threshold));
    law_create_threshold(rules, failing, ctx, metric_id, req, pre, created, mid);
    law_tenants_are_kept_apart(
        rules,
        failing,
        ctx,
        Request::CreateThreshold { metric_id, req },
        pre,
        created,
        mid,
    );
    let row = choose|row: thresholds::Row|
        #[trigger] adds_threshold(pre, row, mid) && threshold == threshold_of(row);
    assert(mid.has_threshold(row));
    lemma_threshold_is_listed(rules, failing, ctx, metric_id, row, mid, list, post);
}

/// A threshold of the tenant on a metric is among those that are shown of the metric.
proof fn lemma_threshold_is_listed(
    rules: ThresholdRulesView,
    failing: bool,
    ctx: SecurityContext,
    metric_id: Uuid,
    row: thresholds::Row,
    pre: Store,
    list: Seq<Threshold<Seq<char>>>,
    post: Store,
)
    requires
        pre.well_formed(),
        pre.has_threshold(row),
        own_thresholds(ctx, metric_id).selects(row),
        served(
            rules,
            failing,
            ctx,
            Request::ListThresholds { metric_id },
            pre,
            Ok(ResponseView::ThresholdList(list)),
            post,
        ),
    ensures
        list.contains(threshold_of(row)),
{
    law_list_thresholds(
        rules,
        failing,
        ctx,
        metric_id,
        pre,
        Ok(ResponseView::ThresholdList(list)),
        post,
    );
    let found = choose|found: Seq<thresholds::Row>|
        #![trigger thresholds_of(found)]
        pre.lists_thresholds(own_thresholds(ctx, metric_id), found) && list == thresholds_of(
            found,
        );
    assert(found.contains(row));
    let i = choose|i: int| 0 <= i < found.len() && found[i] == row;
    assert(thresholds_of(found)[i] == threshold_of(row));
}

/// A change of a threshold that has been answered is shown next as it was answered.
pub proof fn law_updated_threshold_is_listed(
    rules: ThresholdRulesView,
    failing: bool,
    ctx: SecurityContext,
    metric_id: Uuid,
    tid: Uuid,
    req: UpdateThresholdRequest<Seq<char>>,
    threshold: Threshold<Seq<char>>,
    pre: Store,
    mid: Store,
    list: Seq<Threshold<Seq<char>>>,
    post: Store,
)
    requires
        pre.well_formed(),
        served(
            rules,
            failing,
            ctx,
            Request::UpdateThreshold { metric_id, tid, req },
            pre,
            Ok(ResponseView::Threshold(threshold)),
            mid,
        ),
        served(
            rules,
            failing,
            ctx,
            Request::ListThresholds { metric_id },
            mid,
            Ok(ResponseView::ThresholdList(list)),
            post,
        ),
    ensures
        list.contains(threshold),
        threshold.id == tid,
{
    let updated = Ok(ResponseView::Threshold(threshold));
    law_update_threshold(rules, failing, ctx, metric_id, tid, req, pre, updated, mid);
    law_tenants_are_kept_apart(
        rules,
        failing,
        ctx,
        Request::UpdateThreshold { metric_id, tid, req },
        pre,
        updated,
        mid,
    );
    let row = mid.thresholds[tid];
    assert(mid.has_threshold(row));
    lemma_threshold_is_listed(rules, failing, ctx, metric_id, row, mid, list, post);
}

/// A threshold that has been deleted is gone: it is in no list, and to change it or to
/// delete it again is not found.
pub proof fn law_deleted_threshold_is_gone(
    rules: ThresholdRulesView,
    failing: bool,
    ctx: SecurityContext,
    metric_id: Uuid,
    tid: Uuid,
    pre: Store,
    mid: Store,
    request: Request,
    outcome: Result<ResponseView, StatusCode>,
    post: Store,
)
    requires
        pre.well_formed(),
        served(
            rules,
            failing,
            ctx,
            Request::DeleteThreshold { metric_id, tid },
            pre,
            Ok(ResponseView::NoContent),
            mid,
        ),
        served(rules, failing, ctx, request, mid, outcome, post),
    ensures
        match request {
            Request::ListThresholds { .. } => outcome matches Ok(ResponseView::ThresholdList(list))
                ==> forall|i: int| 0 <= i < list.len() ==> (#[trigger] list[i]).id != tid,
            Request::UpdateThreshold { tid: other, .. } => other == tid ==> ended_as(
                failing,
                outcome,
                Err(StatusCode::NotFound),
            ),
            Request::DeleteThreshold { tid: other, .. } => other == tid ==> ended_as(
                failing,
                outcome,
                Err(StatusCode::NotFound),
            ),
            _ => true,
        },
{
    let deleted = Ok(ResponseView::NoContent);
    law_delete_threshold(rules, failing, ctx, metric_id, tid, pre, deleted, mid);
    law_tenants_are_kept_apart(
        rules,
        failing,
        ctx,
        Request::DeleteThreshold { metric_id, tid },
        pre,
        deleted,
        mid,
    );
    match request {
        Request::ListThresholds { metric_id: listed } => {
            law_list_thresholds(rules, failing, ctx, listed, mid, outcome, post);
            if let Ok(ResponseView::ThresholdList(list)) = outcome {
                let found = choose|found: Seq<thresholds::Row>|
                    #![trigger thresholds_of(found)]
                    mid.lists_thresholds(own_thresholds(ctx, listed), found) && list
                        == thresholds_of(found);
                assert forall|i: int| 0 <= i < list.len() implies (
                #[trigger] list[i]).id != tid by {
                    assert(list[i] == threshold_of(found[i]));
                    assert(found.contains(found[i]));
                    assert(mid.has_threshold(found[i]));
                }
            }
        },
        Request::UpdateThreshold { metric_id: of, tid: other, req } => {
            law_update_threshold(rules, failing, ctx, of, other, req, mid, outcome, post);
        },
        Request::DeleteThreshold { metric_id: of, tid: other } => {
            law_delete_threshold(rules, failing, ctx, of, other, mid, outcome, post);
        },
        _ => {},
    }
}

/// The columns that are shown of one table are those of the table among all that are
/// shown.
pub proof fn law_columns_of_one_table(
    rules: ThresholdRulesView,
    failing: bool,
    ctx: SecurityContext,
    table: Seq<char>,
    pre: Store,
    all: Seq<TableColumn<Seq<char>>>,
    mid: Store,
    some: Seq<TableColumn<Seq<char>>>,
    post: Store,
)
    requires
        served(
            rules,
            failing,
            ctx,
            Request::ListColumns { table: None },
            pre,
            Ok(ResponseView::ColumnList(all)),
            mid,
        ),
        served(
            rules,
            failing,
            ctx,
            Request::ListColumns { table: Some(table) },
            mid,
            Ok(ResponseView::ColumnList(some)),
            post,
        ),
    ensures
        forall|column: TableColumn<Seq<char>>| #[trigger]
            some.contains(column) <==> all.contains(column) && column.clickhouse_table == table,
{
    law_list_columns(rules, failing, ctx, None, pre, Ok(ResponseView::ColumnList(all)), mid);
    law_list_columns(
        rules,
        failing,
        ctx,
        Some(table),
        mid,
        Ok(ResponseView::ColumnList(some)),
        post,
    );
    let tenant = ctx.insight_tenant_id;
    let every = choose|found: Seq<table_columns::Row>|
        #![trigger columns_of(found)]
        pre.lists_columns(ColumnFilter { table: None, tenant }, found) && all == columns_of(found);
    let those = choose|found: Seq<table_columns::Row>|
        #![trigger columns_of(found)]
        mid.lists_columns(ColumnFilter { table: Some(table), tenant }, found) && some
            == columns_of(found);
    assert forall|column: TableColumn<Seq<char>>|
        #![trigger some.contains(column)]
        some.contains(column) implies all.contains(column) && column.clickhouse_table == table by {
        let i = choose|i: int| 0 <= i < some.len() && some[i] == column;
        assert(those.contains(those[i]));
        assert(every.contains(those[i]));
        let k = choose|k: int| 0 <= k < every.len() && every[k] == those[i];
        assert(all[k] == column);
    }
    assert forall|column: TableColumn<Seq<char>>|
        #![trigger some.contains(column)]
        all.contains(column) && column.clickhouse_table == table implies some.contains(column) by {
        let i = choose|i: int| 0 <= i < all.len() && all[i] == column;
        assert(every.contains(every[i]));
        assert(those.contains(every[i]));
        let k = choose|k: int| 0 <= k < those.len() && those[k] == every[i];
        assert(some[k] == column);
    }
}

} // verus!
