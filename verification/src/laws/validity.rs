//! What the store never comes to hold, and what refused requests leave alone.

use vstd::prelude::*;

use crate::auth::SecurityContext;
use crate::domain::threshold::ThresholdRulesView;
use crate::entities::active_value::ActiveValue;
use crate::handlers::{calls_left, next};
use crate::ids::Uuid;
use crate::laws::answers::{
    law_create_metric, law_create_threshold, law_delete_metric, law_delete_threshold,
    law_get_metric, law_list_columns, law_list_metrics, law_list_thresholds, law_query_metric,
    law_update_metric, law_update_threshold,
};
use crate::laws::requests::{begin, served, Request};
use crate::pending::{PendingView, StepView};
use crate::protocol::{CallView, ReplyView};
use crate::response::{ResponseView, StatusCode};
use crate::store::{ends, lemma_reply_heard, Store};

verus! {

/// Every threshold in the store has an operator and a level that a threshold may have.
pub open spec fn thresholds_are_valid(rules: ThresholdRulesView, store: Store) -> bool {
    forall|id: Uuid| #[trigger]
        store.thresholds.contains_key(id) ==> rules.allow(
            store.thresholds[id].operator,
            store.thresholds[id].level,
        )
}

/// A call writes no operator and no level that a threshold may not have.
pub open spec fn writes_valid(rules: ThresholdRulesView, call: CallView) -> bool {
    match call {
        CallView::InsertThreshold(active) => {
            &&& active.operator matches ActiveValue::Assigned(operator) && rules.operators.contains(
                operator,
            )
            &&& active.level matches ActiveValue::Assigned(level) && rules.levels.contains(level)
        },
        CallView::UpdateThreshold(active) => {
            &&& active.operator matches ActiveValue::Assigned(operator)
                ==> rules.operators.contains(operator)
            &&& active.level matches ActiveValue::Assigned(level) ==> rules.levels.contains(level)
        },
        _ => true,
    }
}

/// Whatever a request hears, it goes on to write no operator and no level that a
/// threshold may not have.
pub proof fn law_requests_write_valid_thresholds(
    rules: ThresholdRulesView,
    pending: PendingView,
    reply: ReplyView,
    fresh: Uuid,
)
    ensures
        next(rules, pending, reply, fresh) matches StepView::Wait(follows) ==> writes_valid(
            rules,
            follows.call,
        ),
{
}

/// From a step that writes only valid thresholds on, a request keeps them valid.
proof fn lemma_run_keeps_valid(
    rules: ThresholdRulesView,
    failing: bool,
    step: StepView,
    pre: Store,
    outcome: Result<ResponseView, StatusCode>,
    post: Store,
)
    requires
        thresholds_are_valid(rules, pre),
        step matches StepView::Wait(pending) ==> writes_valid(rules, pending.call),
        ends(rules, failing, step, pre, outcome, post),
    ensures
        thresholds_are_valid(rules, post),
    decreases calls_left(step),
{
    match step {
        StepView::Done(_) => {},
        StepView::Wait(pending) => {
            let (reply, mid, fresh) = lemma_reply_heard(
                rules,
                failing,
                pending,
                pre,
                outcome,
                post,
            );
            law_requests_write_valid_thresholds(rules, pending, reply, fresh);
            lemma_run_keeps_valid(
                rules,
                failing,
                next(rules, pending, reply, fresh),
                mid,
                outcome,
                post,
            );
        },
    }
}

/// Thresholds with an operator and a level that a threshold may have are all that the
/// store ever holds, if it held no others at the beginning.
pub proof fn law_thresholds_stay_valid(
    rules: ThresholdRulesView,
    failing: bool,
    ctx: SecurityContext,
    request: Request,
    pre: Store,
    outcome: Result<ResponseView, StatusCode>,
    post: Store,
)
    requires
        thresholds_are_valid(rules, pre),
        served(rules, failing, ctx, request, pre, outcome, post),
    ensures
        thresholds_are_valid(rules, post),
{
    lemma_run_keeps_valid(rules, failing, begin(ctx, request), pre, outcome, post);
}

/// A request that is refused, as bad or as not found, leaves the store as it was; and
/// so does every request that only shows something.
pub proof fn law_refused_requests_change_nothing(
    rules: ThresholdRulesView,
    failing: bool,
    ctx: SecurityContext,
    request: Request,
    pre: Store,
    outcome: Result<ResponseView, StatusCode>,
    post: Store,
)
    requires
        pre.well_formed(),
        served(rules, failing, ctx, request, pre, outcome, post),
    ensures
        outcome == Err::<ResponseView, StatusCode>(StatusCode::NotFound) || outcome == Err::<
            ResponseView,
            StatusCode,
        >(StatusCode::BadRequest) ==> post == pre,
        request is ListMetrics || request is GetMetric || request is QueryMetric
            || request is ListThresholds || request is ListColumns ==> post == pre,
        outcome matches Err(status) ==> status == StatusCode::NotFound || status
            == StatusCode::BadRequest || (failing && status == StatusCode::InternalServerError),
{
    match request {
        Request::ListMetrics => law_list_metrics(rules, failing, ctx, pre, outcome, post),
        Request::GetMetric { id } => law_get_metric(rules, failing, ctx, id, pre, outcome, post),
        Request::CreateMetric { id, req } => law_create_metric(
            rules,
            failing,
            ctx,
            id,
            req,
            pre,
            outcome,
            post,
        ),
        Request::UpdateMetric { id, req } => law_update_metric(
            rules,
            failing,
            ctx,
            id,
            req,
            pre,
            outcome,
            post,
        ),
        Request::DeleteMetric { id } => law_delete_metric(
            rules,
            failing,
            ctx,
            id,
            pre,
            outcome,
            post,
        ),
        Request::QueryMetric { id, req } => law_query_metric(
            rules,
            failing,
            ctx,
            id,
            req,
            pre,
            outcome,
            post,
        ),
        Request::ListThresholds { metric_id } => law_list_thresholds(
            rules,
            failing,
            ctx,
            metric_id,
            pre,
            outcome,
            post,
        ),
        Request::CreateThreshold { metric_id, req } => law_create_threshold(
            rules,
            failing,
            ctx,
            metric_id,
            req,
            pre,
            outcome,
            post,
        ),
        Request::UpdateThreshold { metric_id, tid, req } => law_update_threshold(
            rules,
            failing,
            ctx,
            metric_id,
            tid,
            req,
            pre,
            outcome,
            post,
        ),
        Request::DeleteThreshold { metric_id, tid } => law_delete_threshold(
            rules,
            failing,
            ctx,
            metric_id,
            tid,
            pre,
            outcome,
            post,
        ),
        Request::ListColumns { table } => law_list_columns(
            rules,
            failing,
            ctx,
            table,
            pre,
            outcome,
            post,
        ),
    }
}

} // verus!
