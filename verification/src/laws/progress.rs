//! Every request is answered when the database does its work.

use vstd::prelude::*;

use crate::auth::SecurityContext;
use crate::domain::threshold::ThresholdRulesView;
use crate::entities::active_value::ActiveValue;
use crate::entities::{metrics, table_columns, thresholds};
use crate::handlers::{calls_left, lemma_next_is_closer, next};
use crate::ids::{is_version_7, Uuid};
use crate::laws::requests::{begin, served, Request};
use crate::pending::StepView;
use crate::protocol::{CallView, ColumnFilter, MetricFilter, ReplyView, ThresholdFilter};
use crate::response::{ResponseView, StatusCode};
use crate::store::{
    adds_metric, adds_threshold, ends, metric_inserted, names, performs, threshold_inserted, Store,
};

verus! {

/// There are finitely many rows in each table.
pub open spec fn is_finite(store: Store) -> bool {
    &&& store.metrics.dom().finite()
    &&& store.thresholds.dom().finite()
    &&& store.columns.dom().finite()
}

/// The row that a call inserts has an id, which no other row has, and the row that a
/// call changes is there.
pub open spec fn can_be_performed(store: Store, call: CallView) -> bool {
    match call {
        CallView::InsertMetric(active) => {
            &&& active.id matches ActiveValue::Assigned(id)
            &&& !store.metrics.contains_key(id)
        },
        CallView::UpdateMetric(active) => exists|id: Uuid| #[trigger]
            store.metrics.contains_key(id) && names(active.id, id),
        CallView::InsertThreshold(active) => {
            &&& active.id matches ActiveValue::Assigned(id)
            &&& !store.thresholds.contains_key(id)
        },
        CallView::UpdateThreshold(active) => exists|id: Uuid| #[trigger]
            store.thresholds.contains_key(id) && names(active.id, id),
        _ => true,
    }
}

/// Finitely many ids can be listed.
proof fn lemma_ids_can_be_listed(ids: Set<Uuid>) -> (list: Seq<Uuid>)
    requires
        ids.finite(),
    ensures
        list.no_duplicates(),
        forall|id: Uuid| #[trigger] list.contains(id) <==> ids.contains(id),
    decreases ids.len(),
{
    if ids.is_empty() {
        assert(ids =~= Set::empty());
        Seq::empty()
    } else {
        let id = ids.choose();
        let others = lemma_ids_can_be_listed(ids.remove(id));
        let list = others.push(id);
        assert(!others.contains(id));
        assert forall|other: Uuid| #[trigger] list.contains(other) <==> ids.contains(other) by {
            if ids.contains(other) {
                if other == id {
                    assert(list[others.len() as int] == id);
                } else {
                    assert(others.contains(other));
                    let i = choose|i: int| 0 <= i < others.len() && others[i] == other;
                    assert(list[i] == other);
                }
            }
            if list.contains(other) && other != id {
                let i = choose|i: int| 0 <= i < list.len() && list[i] == other;
                assert(others[i] == other);
                assert(others.contains(other));
            }
        }
        list
    }
}

/// The metrics that a filter selects can be listed.
proof fn lemma_metrics_can_be_listed(store: Store, filter: MetricFilter) -> (list: Seq<
    metrics::Row,
>)
    requires
        store.well_formed(),
        is_finite(store),
    ensures
        store.lists_metrics(filter, list),
{
    let ids = store.metrics.dom().filter(|id: Uuid| filter.selects(store.metrics[id]));
    let order = lemma_ids_can_be_listed(ids);
    let list = order.map_values(|id: Uuid| store.metrics[id]);
    assert forall|i: int| 0 <= i < order.len() implies ids.contains(#[trigger] order[i]) by {
        assert(order.contains(order[i]));
    }
    assert forall|row: metrics::Row| #[trigger] list.contains(row) <==> store.has_metric(row)
        && filter.selects(row) by {
        if list.contains(row) {
            let i = choose|i: int| 0 <= i < list.len() && list[i] == row;
            assert(ids.contains(order[i]));
        }
        if store.has_metric(row) && filter.selects(row) {
            assert(ids.contains(row.id));
            assert(order.contains(row.id));
            let i = choose|i: int| 0 <= i < order.len() && order[i] == row.id;
            assert(list[i] == row);
        }
    }
    assert forall|i: int, j: int| 0 <= i < list.len() && 0 <= j < list.len() && i != j implies list[i]
        != list[j] by {
        assert(ids.contains(order[i]) && ids.contains(order[j]));
    }
    list
}

/// The thresholds that a filter selects can be listed.
proof fn lemma_thresholds_can_be_listed(store: Store, filter: ThresholdFilter) -> (list: Seq<
    thresholds::Row,
>)
    requires
        store.well_formed(),
        is_finite(store),
    ensures
        store.lists_thresholds(filter, list),
{
    let ids = store.thresholds.dom().filter(|id: Uuid| filter.selects(store.thresholds[id]));
    let order = lemma_ids_can_be_listed(ids);
    let list = order.map_values(|id: Uuid| store.thresholds[id]);
    assert forall|i: int| 0 <= i < order.len() implies ids.contains(#[trigger] order[i]) by {
        assert(order.contains(order[i]));
    }
    assert forall|row: thresholds::Row| #[trigger] list.contains(row) <==> store.has_threshold(row)
        && filter.selects(row) by {
        if list.contains(row) {
            let i = choose|i: int| 0 <= i < list.len() && list[i] == row;
            assert(ids.contains(order[i]));
        }
        if store.has_threshold(row) && filter.selects(row) {
            assert(ids.contains(row.id));
            assert(order.contains(row.id));
            let i = choose|i: int| 0 <= i < order.len() && order[i] == row.id;
            assert(list[i] == row);
        }
    }
    assert forall|i: int, j: int| 0 <= i < list.len() && 0 <= j < list.len() && i != j implies list[i]
        != list[j] by {
        assert(ids.contains(order[i]) && ids.contains(order[j]));
    }
    list
}

/// The table columns that a filter selects can be listed.
proof fn lemma_columns_can_be_listed(store: Store, filter: ColumnFilter<Seq<char>>) -> (list: Seq<
    table_columns::Row,
>)
    requires
        store.well_formed(),
        is_finite(store),
    ensures
        store.lists_columns(filter, list),
{
    let ids = store.columns.dom().filter(|id: Uuid| filter.selects(store.columns[id]));
    let order = lemma_ids_can_be_listed(ids);
    let list = order.map_values(|id: Uuid| store.columns[id]);
    assert forall|i: int| 0 <= i < order.len() implies ids.contains(#[trigger] order[i]) by {
        assert(order.contains(order[i]));
    }
    assert forall|row: table_columns::Row| #[trigger] list.contains(row) <==> store.has_column(row)
        && filter.selects(row) by {
        if list.contains(row) {
            let i = choose|i: int| 0 <= i < list.len() && list[i] == row;
            assert(ids.contains(order[i]));
        }
        if store.has_column(row) && filter.selects(row) {
            assert(ids.contains(row.id));
            assert(order.contains(row.id));
            let i = choose|i: int| 0 <= i < order.len() && order[i] == row.id;
            assert(list[i] == row);
        }
    }
    assert forall|i: int, j: int| 0 <= i < list.len() && 0 <= j < list.len() && i != j implies list[i]
        != list[j] by {
        assert(ids.contains(order[i]) && ids.contains(order[j]));
    }
    list
}

/// What a column of a new row holds: what the insertion says, or anything.
spec fn given<T>(value: ActiveValue<T>) -> T {
    match value {
        ActiveValue::Assigned(given) => given,
        ActiveValue::Unchanged(given) => given,
        ActiveValue::NotSet => arbitrary(),
    }
}

/// A call whose row can be inserted or is there can be performed.
proof fn lemma_call_can_be_performed(pre: Store, call: CallView) -> (done: (ReplyView, Store))
    requires
        pre.well_formed(),
        is_finite(pre),
        can_be_performed(pre, call),
    ensures
        performs(pre, call, done.0, done.1),
        !(done.0 is Failed),
        done.1.well_formed(),
        is_finite(done.1),
{
    match call {
        CallView::AllMetrics(filter) => {
            let list = lemma_metrics_can_be_listed(pre, filter);
            (ReplyView::Metrics(list), pre)
        },
        CallView::OneMetric(filter) => {
            if exists|row: metrics::Row| #[trigger] pre.has_metric(row) && filter.selects(row) {
                let row = choose|row: metrics::Row| #[trigger]
                    pre.has_metric(row) && filter.selects(row);
                (ReplyView::Metric(Some(row)), pre)
            } else {
                (ReplyView::Metric(None), pre)
            }
        },
        CallView::InsertMetric(active) => {
            let row = metrics::Model {
                id: given(active.id),
                insight_tenant_id: given(active.insight_tenant_id),
                name: given(active.name),
                description: given(active.description),
                query_ref: given(active.query_ref),
                is_enabled: given(active.is_enabled),
                created_at: given(active.created_at),
                updated_at: given(active.updated_at),
            };
            let post = Store { metrics: pre.metrics.insert(row.id, row), ..pre };
            assert(metric_inserted(active, row) && adds_metric(pre, row, post));
            (ReplyView::Done, post)
        },
        CallView::UpdateMetric(active) => {
            let id = choose|id: Uuid| #[trigger]
                pre.metrics.contains_key(id) && names(active.id, id);
            let before = pre.metrics[id];
            let row = metrics::Model {
                id,
                insight_tenant_id: active.insight_tenant_id.over(before.insight_tenant_id),
                name: active.name.over(before.name),
                description: active.description.over(before.description),
                query_ref: active.query_ref.over(before.query_ref),
                is_enabled: active.is_enabled.over(before.is_enabled),
                created_at: active.created_at.over(before.created_at),
                updated_at: before.updated_at,
            };
            (
                ReplyView::UpdatedMetric(row),
                Store { metrics: pre.metrics.insert(id, row), ..pre },
            )
        },
        CallView::AllThresholds(filter) => {
            let list = lemma_thresholds_can_be_listed(pre, filter);
            (ReplyView::Thresholds(list), pre)
        },
        CallView::OneThreshold(filter) => {
            if exists|row: thresholds::Row| #[trigger]
                pre.has_threshold(row) && filter.selects(row) {
                let row = choose|row: thresholds::Row| #[trigger]
                    pre.has_threshold(row) && filter.selects(row);
                (ReplyView::Threshold(Some(row)), pre)
            } else {
                (ReplyView::Threshold(None), pre)
            }
        },
        CallView::InsertThreshold(active) => {
            let row = thresholds::Model {
                id: given(active.id),
                insight_tenant_id: given(active.insight_tenant_id),
                metric_id: given(active.metric_id),
                field_name: given(active.field_name),
                operator: given(active.operator),
                value: given(active.value),
                level: given(active.level),
                created_at: given(active.created_at),
                updated_at: given(active.updated_at),
            };
            let post = Store { thresholds: pre.thresholds.insert(row.id, row), ..pre };
            assert(threshold_inserted(active, row) && adds_threshold(pre, row, post));
            (ReplyView::Done, post)
        },
        CallView::UpdateThreshold(active) => {
            let id = choose|id: Uuid| #[trigger]
                pre.thresholds.contains_key(id) && names(active.id, id);
            let before = pre.thresholds[id];
            let row = thresholds::Model {
                id,
                insight_tenant_id: active.insight_tenant_id.over(before.insight_tenant_id),
                metric_id: active.metric_id.over(before.metric_id),
                field_name: active.field_name.over(before.field_name),
                operator: active.operator.over(before.operator),
                value: active.value.over(before.value),
                level: active.level.over(before.level),
                created_at: active.created_at.over(before.created_at),
                updated_at: before.updated_at,
            };
            (
                ReplyView::UpdatedThreshold(row),
                Store { thresholds: pre.thresholds.insert(id, row), ..pre },
            )
        },
        CallView::DeleteThreshold(id) => (
            ReplyView::Done,
            Store { thresholds: pre.thresholds.remove(id), ..pre },
        ),
        CallView::AllColumns(filter) => {
            let list = lemma_columns_can_be_listed(pre, filter);
            (ReplyView::Columns(list), pre)
        },
        CallView::Compare(_) => (ReplyView::Verdicts(Seq::empty()), pre),
    }
}

/// The step that a request has come to waits for a call that can be performed, and an
/// id is free for the threshold that it may go on to create.
spec fn can_go_on(pre: Store, step: StepView, fresh: Uuid) -> bool {
    step matches StepView::Wait(pending) ==> {
        &&& can_be_performed(pre, pending.call)
        &&& pending.stage is FindMetricOfNewThreshold ==> {
            &&& pending.call is OneMetric
            &&& !pre.thresholds.contains_key(fresh)
        }
    }
}

/// A request that can go on can end.
proof fn lemma_request_can_end(
    rules: ThresholdRulesView,
    step: StepView,
    pre: Store,
    fresh: Uuid,
) -> (end: (Result<ResponseView, StatusCode>, Store))
    requires
        pre.well_formed(),
        is_finite(pre),
        is_version_7(fresh),
        can_go_on(pre, step, fresh),
    ensures
        ends(rules, false, step, pre, end.0, end.1),
    decreases calls_left(step),
{
    match step {
        StepView::Done(outcome) => (outcome, pre),
        StepView::Wait(pending) => {
            let (reply, mid) = lemma_call_can_be_performed(pre, pending.call);
            let follows = next(rules, pending, reply, fresh);
            lemma_next_is_closer(rules, pending);
            match reply {
                ReplyView::Metric(Some(row)) => {
                    assert(mid.metrics.contains_key(row.id));
                },
                ReplyView::Threshold(Some(row)) => {
                    assert(mid.thresholds.contains_key(row.id));
                },
                _ => {},
            }
            let (outcome, post) = lemma_request_can_end(rules, follows, mid, fresh);
            assert(performs(pre, pending.call, reply, mid));
            assert(ends(rules, false, next(rules, pending, reply, fresh), mid, outcome, post));
            (outcome, post)
        },
    }
}

/// Every request is answered when the database does its work: on a store of finitely
/// many rows, where the id of a metric to be created and an id for a threshold to be
/// created are free, there is an end that the request can come to without a failure.
pub proof fn law_every_request_can_be_answered(
    rules: ThresholdRulesView,
    ctx: SecurityContext,
    request: Request,
    pre: Store,
    fresh: Uuid,
)
    requires
        pre.well_formed(),
        is_finite(pre),
        request matches Request::CreateMetric { id, .. } ==> !pre.metrics.contains_key(id),
        request is CreateThreshold ==> !pre.thresholds.contains_key(fresh),
        is_version_7(fresh),
    ensures
        exists|outcome: Result<ResponseView, StatusCode>, post: Store| #[trigger]
            served(rules, false, ctx, request, pre, outcome, post),
{
    let (outcome, post) = lemma_request_can_end(rules, begin(ctx, request), pre, fresh);
    assert(served(rules, false, ctx, request, pre, outcome, post));
}

} // verus!
