//! Requests of every kind, and what holds of each of them.

use vstd::prelude::*;

use crate::auth::SecurityContext;
use crate::domain::metric::{CreateMetricRequest, UpdateMetricRequest};
use crate::domain::query::QueryRequest;
use crate::domain::threshold::{
    CreateThresholdRequest, ThresholdRulesView, UpdateThresholdRequest,
};
use crate::handlers::{
    calls_left, create_metric_begins, create_threshold_begins, delete_metric_begins,
    delete_threshold_begins, fails, get_metric_begins, lemma_next_is_closer, list_columns_begins,
    list_metrics_begins, list_thresholds_begins, next, query_metric_begins, update_metric_begins,
    update_threshold_begins,
};
use crate::ids::Uuid;
use crate::pending::{PendingView, StepView};
use crate::protocol::ReplyView;
use crate::response::{ResponseView, StatusCode};
use crate::store::{ends, Store};

verus! {

/// A request to the API. A metric that is created comes with the id that it gets.
#[allow(inconsistent_fields)]
pub enum Request {
    ListMetrics,
    GetMetric { id: Uuid },
    CreateMetric { id: Uuid, req: CreateMetricRequest<Seq<char>> },
    UpdateMetric { id: Uuid, req: UpdateMetricRequest<Seq<char>> },
    DeleteMetric { id: Uuid },
    QueryMetric { id: Uuid, req: QueryRequest<Seq<char>> },
    ListThresholds { metric_id: Uuid },
    CreateThreshold { metric_id: Uuid, req: CreateThresholdRequest<Seq<char>> },
    UpdateThreshold { metric_id: Uuid, tid: Uuid, req: UpdateThresholdRequest<Seq<char>> },
    DeleteThreshold { metric_id: Uuid, tid: Uuid },
    ListColumns { table: Option<Seq<char>> },
}

/// How a request begins.
pub open spec fn begin(ctx: SecurityContext, request: Request) -> StepView {
    match request {
        Request::ListMetrics => list_metrics_begins(ctx),
        Request::GetMetric { id } => get_metric_begins(ctx, id),
        Request::CreateMetric { id, req } => create_metric_begins(ctx, id, req),
        Request::UpdateMetric { id, req } => update_metric_begins(ctx, id, req),
        Request::DeleteMetric { id } => delete_metric_begins(ctx, id),
        Request::QueryMetric { id, req } => query_metric_begins(ctx, id, req),
        Request::ListThresholds { metric_id } => list_thresholds_begins(ctx, metric_id),
        Request::CreateThreshold { metric_id, req } => create_threshold_begins(
            ctx,
            metric_id,
            req,
        ),
        Request::UpdateThreshold { metric_id, tid, req } => update_threshold_begins(
            ctx,
            metric_id,
            tid,
            req,
        ),
        Request::DeleteThreshold { metric_id, tid } => delete_threshold_begins(
            ctx,
            metric_id,
            tid,
        ),
        Request::ListColumns { table } => list_columns_begins(ctx, table),
    }
}

/// On a store `pre` that nothing else writes to, a request can end with `outcome` and
/// leave `post`; calls to the database fail only if `failing` holds.
pub open spec fn served(
    rules: ThresholdRulesView,
    failing: bool,
    ctx: SecurityContext,
    request: Request,
    pre: Store,
    outcome: Result<ResponseView, StatusCode>,
    post: Store,
) -> bool {
    ends(rules, failing, begin(ctx, request), pre, outcome, post)
}

/// Every request is answered after at most three calls: it begins with no more than
/// three to go, and every reply, whatever it is, leaves fewer.
pub proof fn law_three_calls_at_most(
    rules: ThresholdRulesView,
    ctx: SecurityContext,
    request: Request,
    pending: PendingView,
    reply: ReplyView,
    fresh: Uuid,
)
    ensures
        calls_left(begin(ctx, request)) <= 3,
        calls_left(next(rules, pending, reply, fresh)) < calls_left(StepView::Wait(pending)),
{
    lemma_next_is_closer(rules, pending);
}

/// Whenever the database fails, the request is answered with an internal server
/// error, whatever it was doing.
pub proof fn law_failure_is_internal_error(
    rules: ThresholdRulesView,
    pending: PendingView,
    fresh: Uuid,
)
    ensures
        next(rules, pending, ReplyView::Failed, fresh) == fails(StatusCode::InternalServerError),
{
}

} // verus!
