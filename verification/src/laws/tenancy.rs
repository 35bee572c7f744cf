//! Tenants are kept apart.

use vstd::prelude::*;

use crate::auth::SecurityContext;
use crate::domain::threshold::ThresholdRulesView;
use crate::entities::active_value::ActiveValue;
use crate::entities::{metrics, table_columns, thresholds};
use crate::handlers::{calls_left, next};
use crate::ids::Uuid;
use crate::laws::requests::{begin, served, Request};
use crate::pending::{PendingView, StageView, StepView};
use crate::protocol::{CallView, ReplyView};
use crate::response::{ResponseView, StatusCode};
use crate::store::{ends, lemma_reply_heard, names, performs, Store};

verus! {

/// A metric of that id, if there is one, belongs to the tenant.
pub open spec fn metric_is_own(store: Store, id: Uuid, tenant: Uuid) -> bool {
    store.metrics.contains_key(id) ==> store.metrics[id].insight_tenant_id == tenant
}

/// A threshold of that id, if there is one, belongs to the tenant.
pub open spec fn threshold_is_own(store: Store, id: Uuid, tenant: Uuid) -> bool {
    store.thresholds.contains_key(id) ==> store.thresholds[id].insight_tenant_id == tenant
}

/// The call that a request waits for is about rows of its tenant only: what it looks
/// for is bound to the tenant, or is the row that it has just inserted; what it
/// inserts belongs to the tenant; what it changes or removes belongs to the tenant
/// and stays with it. A request that inserts a row knows the id of the row.
pub open spec fn within_tenant(store: Store, pending: PendingView) -> bool {
    let tenant = pending.ctx.insight_tenant_id;
    &&& pending.stage matches StageView::InsertMetric { id } ==> {
        &&& pending.call is InsertMetric
        &&& pending.call->InsertMetric_0.id == ActiveValue::Assigned(id)
    }
    &&& pending.stage matches StageView::InsertThreshold { id } ==> {
        &&& pending.call is InsertThreshold
        &&& pending.call->InsertThreshold_0.id == ActiveValue::Assigned(id)
    }
    &&& match pending.call {
        CallView::AllMetrics(filter) => filter.tenant == Some(tenant),
        CallView::OneMetric(filter) => {
            ||| filter.tenant == Some(tenant)
            ||| {
                &&& pending.stage is ReadNewMetric
                &&& filter.id is Some
                &&& metric_is_own(store, filter.id->0, tenant)
            }
        },
        CallView::InsertMetric(active) => active.insight_tenant_id == ActiveValue::Assigned(
            tenant,
        ),
        CallView::UpdateMetric(active) => {
            &&& active.insight_tenant_id == ActiveValue::Unchanged(tenant)
            &&& forall|id: Uuid| names(active.id, id) ==> metric_is_own(store, id, tenant)
        },
        CallView::AllThresholds(filter) => filter.tenant == Some(tenant),
        CallView::OneThreshold(filter) => {
            ||| filter.tenant == Some(tenant)
            ||| {
                &&& pending.stage is ReadNewThreshold
                &&& filter.id is Some
                &&& threshold_is_own(store, filter.id->0, tenant)
            }
        },
        CallView::InsertThreshold(active) => active.insight_tenant_id == ActiveValue::Assigned(
            tenant,
        ),
        CallView::UpdateThreshold(active) => {
            &&& active.insight_tenant_id == ActiveValue::Unchanged(tenant)
            &&& forall|id: Uuid| names(active.id, id) ==> threshold_is_own(store, id, tenant)
        },
        CallView::DeleteThreshold(id) => threshold_is_own(store, id, tenant),
        CallView::AllColumns(filter) => filter.tenant == tenant,
        CallView::Compare(_) => true,
    }
}

/// The rows of all other tenants are the same in both stores, and so are all table
/// columns.
pub open spec fn keeps_others(tenant: Uuid, pre: Store, post: Store) -> bool {
    &&& forall|row: metrics::Row|
        row.insight_tenant_id != tenant ==> (#[trigger] pre.has_metric(row) <==> post.has_metric(
            row,
        ))
    &&& forall|row: thresholds::Row|
        row.insight_tenant_id != tenant ==> (#[trigger] pre.has_threshold(row)
            <==> post.has_threshold(row))
    &&& post.columns == pre.columns
}

/// What an answer shows belongs to the tenant; a table column may belong to none.
pub open spec fn shows_own(response: ResponseView, tenant: Uuid) -> bool {
    match response {
        ResponseView::Metric(metric) => metric.insight_tenant_id == tenant,
        ResponseView::CreatedMetric(metric) => metric.insight_tenant_id == tenant,
        ResponseView::ThresholdList(list) => forall|i: int|
            0 <= i < list.len() ==> (#[trigger] list[i]).insight_tenant_id == tenant,
        ResponseView::Threshold(threshold) => threshold.insight_tenant_id == tenant,
        ResponseView::CreatedThreshold(threshold) => threshold.insight_tenant_id == tenant,
        ResponseView::ColumnList(list) => forall|i: int|
            0 <= i < list.len() ==> (#[trigger] list[i]).insight_tenant_id is None
                || list[i].insight_tenant_id == Some(tenant),
        _ => true,
    }
}

/// What a request has come to stays within its tenant: the call that it waits for is
/// about rows of the tenant only, and so is its answer.
pub open spec fn stays_within_tenant(store: Store, ctx: SecurityContext, step: StepView) -> bool {
    match step {
        StepView::Wait(pending) => pending.ctx == ctx && within_tenant(store, pending),
        StepView::Done(Ok(response)) => shows_own(response, ctx.insight_tenant_id),
        StepView::Done(Err(_)) => true,
    }
}

/// Every request begins with a call that is about rows of its tenant only.
pub proof fn law_requests_begin_within_tenant(store: Store, ctx: SecurityContext, request: Request)
    ensures
        stays_within_tenant(store, ctx, begin(ctx, request)),
{
}

/// One call of a request, and what the request makes of the reply, stay within its
/// tenant: rows of other tenants are left alone, the call that follows is about rows
/// of the tenant only, and so is the answer.
pub proof fn law_calls_stay_within_tenant(
    rules: ThresholdRulesView,
    pre: Store,
    pending: PendingView,
    reply: ReplyView,
    post: Store,
    fresh: Uuid,
)
    requires
        pre.well_formed(),
        within_tenant(pre, pending),
        performs(pre, pending.call, reply, post),
    ensures
        post.well_formed(),
        keeps_others(pending.ctx.insight_tenant_id, pre, post),
        stays_within_tenant(post, pending.ctx, next(rules, pending, reply, fresh)),
{
    match reply {
        ReplyView::Thresholds(list) => {
            assert forall|i: int| 0 <= i < list.len() implies (
            #[trigger] list[i]).insight_tenant_id == pending.ctx.insight_tenant_id by {
                assert(list.contains(list[i]));
            }
        },
        ReplyView::Columns(list) => {
            assert forall|i: int| 0 <= i < list.len() implies (
            #[trigger] list[i]).insight_tenant_id is None || list[i].insight_tenant_id == Some(
                pending.ctx.insight_tenant_id,
            ) by {
                assert(list.contains(list[i]));
            }
        },
        _ => {},
    }
}

/// From a step within its tenant on, a request stays within its tenant to its end.
proof fn lemma_run_stays_within_tenant(
    rules: ThresholdRulesView,
    failing: bool,
    ctx: SecurityContext,
    step: StepView,
    pre: Store,
    outcome: Result<ResponseView, StatusCode>,
    post: Store,
)
    requires
        pre.well_formed(),
        stays_within_tenant(pre, ctx, step),
        ends(rules, failing, step, pre, outcome, post),
    ensures
        post.well_formed(),
        keeps_others(ctx.insight_tenant_id, pre, post),
        outcome matches Ok(response) ==> shows_own(response, ctx.insight_tenant_id),
    decreases calls_left(step),
{
    match step {
        StepView::Done(_) => {},
        StepView::Wait(pending) => {
            let (reply, mid, fresh) = lemma_reply_heard(rules, failing, pending, pre, outcome, post);
            law_calls_stay_within_tenant(rules, pre, pending, reply, mid, fresh);
            lemma_run_stays_within_tenant(
                rules,
                failing,
                ctx,
                next(rules, pending, reply, fresh),
                mid,
                outcome,
                post,
            );
        },
    }
}

/// A request leaves the rows of other tenants as they are, and its answer shows no
/// row of another tenant.
pub proof fn law_tenants_are_kept_apart(
    rules: ThresholdRulesView,
    failing: bool,
    ctx: SecurityContext,
    request: Request,
    pre: Store,
    outcome: Result<ResponseView, StatusCode>,
    post: Store,
)
    requires
        pre.well_formed(),
        served(rules, failing, ctx, request, pre, outcome, post),
    ensures
        post.well_formed(),
        keeps_others(ctx.insight_tenant_id, pre, post),
        outcome matches Ok(response) ==> shows_own(response, ctx.insight_tenant_id),
{
    law_requests_begin_within_tenant(pre, ctx, request);
    lemma_run_stays_within_tenant(rules, failing, ctx, begin(ctx, request), pre, outcome, post);
}

/// Two stores hold the same for a tenant: its own rows, and the table columns that
/// all tenants share.
pub open spec fn same_for(tenant: Uuid, one: Store, other: Store) -> bool {
    &&& forall|row: metrics::Row|
        row.insight_tenant_id == tenant ==> (#[trigger] one.has_metric(row)
            <==> other.has_metric(row))
    &&& forall|row: thresholds::Row|
        row.insight_tenant_id == tenant ==> (#[trigger] one.has_threshold(row)
            <==> other.has_threshold(row))
    &&& forall|row: table_columns::Row|
        (row.insight_tenant_id is None || row.insight_tenant_id == Some(tenant)) ==> (
        #[trigger] one.has_column(row) <==> other.has_column(row))
}

/// A call that looks for rows bound to the tenant.
pub open spec fn looks_within(tenant: Uuid, call: CallView) -> bool {
    match call {
        CallView::AllMetrics(filter) => filter.tenant == Some(tenant),
        CallView::OneMetric(filter) => filter.tenant == Some(tenant),
        CallView::AllThresholds(filter) => filter.tenant == Some(tenant),
        CallView::OneThreshold(filter) => filter.tenant == Some(tenant),
        CallView::AllColumns(filter) => filter.tenant == tenant,
        _ => false,
    }
}

/// What a request finds does not depend on the rows of other tenants.
pub proof fn law_lookups_ignore_other_tenants(
    tenant: Uuid,
    call: CallView,
    one: Store,
    other: Store,
    reply: ReplyView,
)
    requires
        looks_within(tenant, call),
        same_for(tenant, one, other),
        performs(one, call, reply, one),
    ensures
        performs(other, call, reply, other),
{
    assert forall|row: metrics::Row| row.insight_tenant_id == tenant
        && #[trigger] other.has_metric(row) implies one.has_metric(row) by {
        assert(one.has_metric(row) <==> other.has_metric(row));
    }
    assert forall|row: thresholds::Row| row.insight_tenant_id == tenant
        && #[trigger] other.has_threshold(row) implies one.has_threshold(row) by {
        assert(one.has_threshold(row) <==> other.has_threshold(row));
    }
}

} // verus!
