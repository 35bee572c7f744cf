//! What each request is answered, and what it leaves in the store.

use vstd::prelude::*;

use crate::auth::SecurityContext;
use crate::domain::metric::{CreateMetricRequest, UpdateMetricRequest};
use crate::domain::query::QueryRequest;
use crate::domain::threshold::{
    CreateThresholdRequest, ThresholdRulesView, UpdateThresholdRequest,
};
use crate::entities::{metrics, table_columns, thresholds};
use crate::handlers::{
    change_is_valid, debug_item, new_metric, new_threshold, next, own_thresholds, single_page,
};
use crate::ids::{is_version_7, Uuid};
use crate::json::{Entries, Json};
use crate::laws::requests::{begin, served, Request};
use crate::levels::{all_with_levels, comparisons, levels, reading, verdicts_of, with_levels};
use crate::mappers::{columns_of, metric_of, summaries_of, threshold_of, thresholds_of};
use crate::pending::StepView;
use crate::protocol::{ColumnFilter, MetricFilter};
use crate::response::{ResponseView, StatusCode};
use crate::sql::{metric_query, MetricQueryView};
use crate::store::{
    adds_metric, adds_threshold, lemma_reply_heard, metric_inserted, replaces_metric,
    replaces_threshold, threshold_inserted, Store,
};

verus! {

/// The tenant has a metric of that id.
pub open spec fn owns_metric(store: Store, ctx: SecurityContext, id: Uuid) -> bool {
    &&& store.metrics.contains_key(id)
    &&& store.metrics[id].insight_tenant_id == ctx.insight_tenant_id
}

/// The tenant has a threshold of that id on that metric.
pub open spec fn owns_threshold(
    store: Store,
    ctx: SecurityContext,
    metric_id: Uuid,
    tid: Uuid,
) -> bool {
    &&& store.thresholds.contains_key(tid)
    &&& store.thresholds[tid].insight_tenant_id == ctx.insight_tenant_id
    &&& store.thresholds[tid].metric_id == metric_id
}

/// A request for the metrics of a tenant shows each enabled metric of the tenant once
/// and nothing else, unless the database fails.
pub proof fn law_list_metrics(
    rules: ThresholdRulesView,
    failing: bool,
    ctx: SecurityContext,
    pre: Store,
    outcome: Result<ResponseView, StatusCode>,
    post: Store,
)
    requires
        served(rules, failing, ctx, Request::ListMetrics, pre, outcome, post),
    ensures
        post == pre,
        match outcome {
            Ok(response) => exists|found: Seq<metrics::Row>|
                #![trigger summaries_of(found)]
                {
                    &&& pre.lists_metrics(
                        MetricFilter {
                            id: None,
                            tenant: Some(ctx.insight_tenant_id),
                            enabled_only: true,
                        },
                        found,
                    )
                    &&& response == ResponseView::MetricList(summaries_of(found))
                },
            Err(status) => failing && status == StatusCode::InternalServerError,
        },
{
    let pending = begin(ctx, Request::ListMetrics)->Wait_0;
    let (reply, mid, fresh) = lemma_reply_heard(rules, failing, pending, pre, outcome, post);
}

/// A request for a metric shows it if the tenant has it, and is not found otherwise,
/// unless the database fails.
pub proof fn law_get_metric(
    rules: ThresholdRulesView,
    failing: bool,
    ctx: SecurityContext,
    id: Uuid,
    pre: Store,
    outcome: Result<ResponseView, StatusCode>,
    post: Store,
)
    requires
        pre.well_formed(),
        served(rules, failing, ctx, Request::GetMetric { id }, pre, outcome, post),
    ensures
        post == pre,
        match outcome {
            Ok(response) => owns_metric(pre, ctx, id) && response == ResponseView::Metric(
                metric_of(pre.metrics[id]),
            ),
            Err(StatusCode::NotFound) => !owns_metric(pre, ctx, id),
            Err(status) => failing && status == StatusCode::InternalServerError,
        },
{
    let pending = begin(ctx, Request::GetMetric { id })->Wait_0;
    let (reply, mid, fresh) = lemma_reply_heard(rules, failing, pending, pre, outcome, post);
    if owns_metric(pre, ctx, id) {
        assert(pre.has_metric(pre.metrics[id]));
    }
}

/// A metric as a request to create one asks for it.
pub open spec fn is_new_metric(
    row: metrics::Row,
    ctx: SecurityContext,
    id: Uuid,
    req: CreateMetricRequest<Seq<char>>,
) -> bool {
    &&& row.id == id
    &&& row.insight_tenant_id == ctx.insight_tenant_id
    &&& row.name == req.name
    &&& row.description == req.description
    &&& row.query_ref == req.query_ref
    &&& row.is_enabled
}

/// A request to create a metric adds it, enabled, to the metrics of the tenant and
/// shows it as it is in the store, unless the database fails.
pub proof fn law_create_metric(
    rules: ThresholdRulesView,
    failing: bool,
    ctx: SecurityContext,
    id: Uuid,
    req: CreateMetricRequest<Seq<char>>,
    pre: Store,
    outcome: Result<ResponseView, StatusCode>,
    post: Store,
)
    requires
        pre.well_formed(),
        served(rules, failing, ctx, Request::CreateMetric { id, req }, pre, outcome, post),
    ensures
        match outcome {
            Ok(response) => {
                &&& adds_metric(pre, post.metrics[id], post)
                &&& is_new_metric(post.metrics[id], ctx, id, req)
                &&& response == ResponseView::CreatedMetric(metric_of(post.metrics[id]))
            },
            Err(status) => failing && status == StatusCode::InternalServerError,
        },
{
    let inserting = begin(ctx, Request::CreateMetric { id, req })->Wait_0;
    let (done, mid, fresh) = lemma_reply_heard(rules, failing, inserting, pre, outcome, post);
    match next(rules, inserting, done, fresh) {
        StepView::Wait(reading) => {
            let row = choose|row: metrics::Row|
                metric_inserted(new_metric(ctx, id, req), row)
                    && #[trigger] adds_metric(pre, row, mid);
            assert(mid.has_metric(row));
            let (found, end, other) = lemma_reply_heard(rules, failing, reading, mid, outcome, post);
        },
        StepView::Done(_) => {},
    }
}

/// A metric after a change that a request asks for.
pub open spec fn is_changed_metric(
    before: metrics::Row,
    req: UpdateMetricRequest<Seq<char>>,
    after: metrics::Row,
) -> bool {
    &&& after.id == before.id
    &&& after.insight_tenant_id == before.insight_tenant_id
    &&& after.name == (if req.name is Some {
        req.name->0
    } else {
        before.name
    })
    &&& after.description == (if req.description is Some {
        req.description
    } else {
        before.description
    })
    &&& after.query_ref == (if req.query_ref is Some {
        req.query_ref->0
    } else {
        before.query_ref
    })
    &&& after.is_enabled == (if req.is_enabled is Some {
        req.is_enabled->0
    } else {
        before.is_enabled
    })
    &&& after.created_at == before.created_at
}

/// A request to change a metric changes what it names and nothing else, and shows the
/// metric as it then is; it is not found if the tenant has no such metric; and either
/// holds unless the database fails.
pub proof fn law_update_metric(
    rules: ThresholdRulesView,
    failing: bool,
    ctx: SecurityContext,
    id: Uuid,
    req: UpdateMetricRequest<Seq<char>>,
    pre: Store,
    outcome: Result<ResponseView, StatusCode>,
    post: Store,
)
    requires
        pre.well_formed(),
        served(rules, failing, ctx, Request::UpdateMetric { id, req }, pre, outcome, post),
    ensures
        match outcome {
            Ok(response) => {
                &&& owns_metric(pre, ctx, id)
                &&& replaces_metric(pre, post.metrics[id], post)
                &&& is_changed_metric(pre.metrics[id], req, post.metrics[id])
                &&& response == ResponseView::Metric(metric_of(post.metrics[id]))
            },
            Err(StatusCode::NotFound) => !owns_metric(pre, ctx, id) && post == pre,
            Err(status) => failing && status == StatusCode::InternalServerError,
        },
{
    let finding = begin(ctx, Request::UpdateMetric { id, req })->Wait_0;
    let (found, mid, fresh) = lemma_reply_heard(rules, failing, finding, pre, outcome, post);
    if owns_metric(pre, ctx, id) {
        assert(pre.has_metric(pre.metrics[id]));
    }
    match next(rules, finding, found, fresh) {
        StepView::Wait(writing) => {
            let (updated, end, other) = lemma_reply_heard(rules, failing, writing, mid, outcome, post);
        },
        StepView::Done(_) => {},
    }
}

/// A request to delete a metric disables it and changes nothing else; it is not found
/// if the tenant has no such metric; and either holds unless the database fails.
pub proof fn law_delete_metric(
    rules: ThresholdRulesView,
    failing: bool,
    ctx: SecurityContext,
    id: Uuid,
    pre: Store,
    outcome: Result<ResponseView, StatusCode>,
    post: Store,
)
    requires
        pre.well_formed(),
        served(rules, failing, ctx, Request::DeleteMetric { id }, pre, outcome, post),
    ensures
        match outcome {
            Ok(response) => {
                &&& owns_metric(pre, ctx, id)
                &&& replaces_metric(pre, post.metrics[id], post)
                &&& is_changed_metric(
                    pre.metrics[id],
                    UpdateMetricRequest {
                        name: None,
                        description: None,
                        query_ref: None,
                        is_enabled: Some(false),
                    },
                    post.metrics[id],
                )
                &&& response == ResponseView::NoContent
            },
            Err(StatusCode::NotFound) => !owns_metric(pre, ctx, id) && post == pre,
            Err(status) => failing && status == StatusCode::InternalServerError,
        },
{
    let finding = begin(ctx, Request::DeleteMetric { id })->Wait_0;
    let (found, mid, fresh) = lemma_reply_heard(rules, failing, finding, pre, outcome, post);
    if owns_metric(pre, ctx, id) {
        assert(pre.has_metric(pre.metrics[id]));
    }
    match next(rules, finding, found, fresh) {
        StepView::Wait(writing) => {
            let (updated, end, other) = lemma_reply_heard(rules, failing, writing, mid, outcome, post);
        },
        StepView::Done(_) => {},
    }
}

/// No entry of the row that shows a query is a number, so that no threshold calls for
/// a comparison on it, and none matches.
pub proof fn law_query_row_reaches_no_level(
    query: MetricQueryView,
    found: Seq<thresholds::Row>,
    verdicts: Seq<bool>,
)
    ensures
        forall|i: int|
            0 <= i < found.len() ==> (#[trigger] comparisons(debug_item(query), found)[i]) is None,
        with_levels(debug_item(query), found, verdicts) == debug_item(query).insert(
            "_thresholds"@,
            Json::Object(Entries::empty()),
        ),
{
    assert forall|field: Seq<char>| (#[trigger] reading(debug_item(query), field)) is None by {}
    assert(levels(debug_item(query), found, verdicts) =~= Entries::empty());
}

/// A query of an enabled metric of the tenant shows the statement and its parameters,
/// on a row without levels; it is not found if the tenant has no such metric or the
/// metric is disabled; and either holds unless the database fails.
pub proof fn law_query_metric(
    rules: ThresholdRulesView,
    failing: bool,
    ctx: SecurityContext,
    id: Uuid,
    req: QueryRequest<Seq<char>>,
    pre: Store,
    outcome: Result<ResponseView, StatusCode>,
    post: Store,
)
    requires
        pre.well_formed(),
        served(rules, failing, ctx, Request::QueryMetric { id, req }, pre, outcome, post),
    ensures
        post == pre,
        match outcome {
            Ok(response) => {
                let query = metric_query(pre.metrics[id].query_ref, ctx.insight_tenant_id, req);
                &&& owns_metric(pre, ctx, id)
                &&& pre.metrics[id].is_enabled
                &&& response == ResponseView::Query(
                    single_page(
                        seq![
                            debug_item(query).insert(
                                "_thresholds"@,
                                Json::Object(Entries::empty()),
                            ),
                        ],
                    ),
                )
            },
            Err(StatusCode::NotFound) => !(owns_metric(pre, ctx, id)
                && pre.metrics[id].is_enabled),
            Err(status) => failing && status == StatusCode::InternalServerError,
        },
{
    let finding = begin(ctx, Request::QueryMetric { id, req })->Wait_0;
    let (found, mid, fresh) = lemma_reply_heard(rules, failing, finding, pre, outcome, post);
    if owns_metric(pre, ctx, id) {
        assert(pre.has_metric(pre.metrics[id]));
    }
    match next(rules, finding, found, fresh) {
        StepView::Wait(listing) => {
            let (list, mid2, fresh2) = lemma_reply_heard(rules, failing, listing, mid, outcome, post);
            match next(rules, listing, list, fresh2) {
                StepView::Wait(comparing) => {
                    let (verdicts, end, fresh3) = lemma_reply_heard(
                        rules,
                        failing,
                        comparing,
                        mid2,
                        outcome,
                        post,
                    );
                    let query = metric_query(
                        pre.metrics[id].query_ref,
                        ctx.insight_tenant_id,
                        req,
                    );
                    let thresholds = list->Thresholds_0;
                    law_query_row_reaches_no_level(
                        query,
                        thresholds,
                        verdicts_of(verdicts->Verdicts_0, 0),
                    );
                    assert(all_with_levels(
                        seq![debug_item(query)],
                        thresholds,
                        verdicts->Verdicts_0,
                    ) =~= seq![
                        debug_item(query).insert("_thresholds"@, Json::Object(Entries::empty())),
                    ]);
                },
                StepView::Done(_) => {},
            }
        },
        StepView::Done(_) => {},
    }
}

/// A request for the thresholds of a metric shows each threshold of the tenant on the
/// metric once and nothing else; it is not found if the tenant has no such metric; and
/// either holds unless the database fails.
pub proof fn law_list_thresholds(
    rules: ThresholdRulesView,
    failing: bool,
    ctx: SecurityContext,
    metric_id: Uuid,
    pre: Store,
    outcome: Result<ResponseView, StatusCode>,
    post: Store,
)
    requires
        pre.well_formed(),
        served(rules, failing, ctx, Request::ListThresholds { metric_id }, pre, outcome, post),
    ensures
        post == pre,
        match outcome {
            Ok(response) => owns_metric(pre, ctx, metric_id) && exists|
                found: Seq<thresholds::Row>,
            |
                #![trigger thresholds_of(found)]
                {
                    &&& pre.lists_thresholds(own_thresholds(ctx, metric_id), found)
                    &&& response == ResponseView::ThresholdList(thresholds_of(found))
                },
            Err(StatusCode::NotFound) => !owns_metric(pre, ctx, metric_id),
            Err(status) => failing && status == StatusCode::InternalServerError,
        },
{
    let finding = begin(ctx, Request::ListThresholds { metric_id })->Wait_0;
    let (found, mid, fresh) = lemma_reply_heard(rules, failing, finding, pre, outcome, post);
    if owns_metric(pre, ctx, metric_id) {
        assert(pre.has_metric(pre.metrics[metric_id]));
    }
    match next(rules, finding, found, fresh) {
        StepView::Wait(listing) => {
            let (list, end, other) = lemma_reply_heard(rules, failing, listing, mid, outcome, post);
        },
        StepView::Done(_) => {},
    }
}

/// A threshold as a request to create one asks for it.
pub open spec fn is_new_threshold(
    row: thresholds::Row,
    ctx: SecurityContext,
    metric_id: Uuid,
    req: CreateThresholdRequest<Seq<char>>,
) -> bool {
    &&& row.insight_tenant_id == ctx.insight_tenant_id
    &&& row.metric_id == metric_id
    &&& row.field_name == req.field_name
    &&& row.operator == req.operator
    &&& row.value == req.value
    &&& row.level == req.level
}

/// A request to create a threshold adds it, under a new id, to those of the metric and
/// shows it as it is in the store. It is not found if the tenant has no such metric; a
/// request on a metric of the tenant is bad if the operator or the level is none that a
/// threshold may have; and all that holds unless the database fails.
pub proof fn law_create_threshold(
    rules: ThresholdRulesView,
    failing: bool,
    ctx: SecurityContext,
    metric_id: Uuid,
    req: CreateThresholdRequest<Seq<char>>,
    pre: Store,
    outcome: Result<ResponseView, StatusCode>,
    post: Store,
)
    requires
        pre.well_formed(),
        served(rules, failing, ctx, Request::CreateThreshold { metric_id, req }, pre, outcome, post),
    ensures
        match outcome {
            Ok(response) => {
                &&& owns_metric(pre, ctx, metric_id)
                &&& rules.allow(req.operator, req.level)
                &&& exists|row: thresholds::Row|
                    {
                        &&& #[trigger] adds_threshold(pre, row, post)
                        &&& is_version_7(row.id)
                        &&& is_new_threshold(row, ctx, metric_id, req)
                        &&& response == ResponseView::CreatedThreshold(threshold_of(row))
                    }
            },
            Err(StatusCode::NotFound) => !owns_metric(pre, ctx, metric_id) && post == pre,
            Err(StatusCode::BadRequest) => {
                &&& owns_metric(pre, ctx, metric_id)
                &&& !rules.allow(req.operator, req.level)
                &&& post == pre
            },
            Err(status) => failing && status == StatusCode::InternalServerError,
        },
{
    let finding = begin(ctx, Request::CreateThreshold { metric_id, req })->Wait_0;
    let (found, mid, fresh) = lemma_reply_heard(rules, failing, finding, pre, outcome, post);
    if owns_metric(pre, ctx, metric_id) {
        assert(pre.has_metric(pre.metrics[metric_id]));
    }
    match next(rules, finding, found, fresh) {
        StepView::Wait(inserting) => {
            let (done, mid2, fresh2) = lemma_reply_heard(rules, failing, inserting, mid, outcome, post);
            match next(rules, inserting, done, fresh2) {
                StepView::Wait(reading) => {
                    let row = choose|row: thresholds::Row|
                        threshold_inserted(new_threshold(ctx, metric_id, fresh, req), row)
                            && #[trigger] adds_threshold(mid, row, mid2);
                    assert(mid2.has_threshold(row));
                    let (read, end, fresh3) = lemma_reply_heard(
                        rules,
                        failing,
                        reading,
                        mid2,
                        outcome,
                        post,
                    );
                    assert(adds_threshold(pre, row, mid2));
                },
                StepView::Done(_) => {},
            }
        },
        StepView::Done(_) => {},
    }
}

/// A threshold after a change that a request asks for.
pub open spec fn is_changed_threshold(
    before: thresholds::Row,
    req: UpdateThresholdRequest<Seq<char>>,
    after: thresholds::Row,
) -> bool {
    &&& after.id == before.id
    &&& after.insight_tenant_id == before.insight_tenant_id
    &&& after.metric_id == before.metric_id
    &&& after.field_name == (if req.field_name is Some {
        req.field_name->0
    } else {
        before.field_name
    })
    &&& after.operator == (if req.operator is Some {
        req.operator->0
    } else {
        before.operator
    })
    &&& after.value == (if req.value is Some {
        req.value->0
    } else {
        before.value
    })
    &&& after.level == (if req.level is Some {
        req.level->0
    } else {
        before.level
    })
    &&& after.created_at == before.created_at
}

/// A request to change a threshold changes what it names and nothing else, and shows
/// the threshold as it then is. It is not found if the tenant has no such threshold on
/// that metric; a request on a threshold of the tenant is bad if it names an operator
/// or a level that no threshold may have; and all that holds unless the database fails.
pub proof fn law_update_threshold(
    rules: ThresholdRulesView,
    failing: bool,
    ctx: SecurityContext,
    metric_id: Uuid,
    tid: Uuid,
    req: UpdateThresholdRequest<Seq<char>>,
    pre: Store,
    outcome: Result<ResponseView, StatusCode>,
    post: Store,
)
    requires
        pre.well_formed(),
        served(rules, failing, ctx, Request::UpdateThreshold { metric_id, tid, req }, pre, outcome, post),
    ensures
        match outcome {
            Ok(response) => {
                &&& owns_threshold(pre, ctx, metric_id, tid)
                &&& change_is_valid(rules, req)
                &&& replaces_threshold(pre, post.thresholds[tid], post)
                &&& is_changed_threshold(pre.thresholds[tid], req, post.thresholds[tid])
                &&& response == ResponseView::Threshold(threshold_of(post.thresholds[tid]))
            },
            Err(StatusCode::NotFound) => !owns_threshold(pre, ctx, metric_id, tid) && post == pre,
            Err(StatusCode::BadRequest) => {
                &&& owns_threshold(pre, ctx, metric_id, tid)
                &&& !change_is_valid(rules, req)
                &&& post == pre
            },
            Err(status) => failing && status == StatusCode::InternalServerError,
        },
{
    let finding = begin(ctx, Request::UpdateThreshold { metric_id, tid, req })->Wait_0;
    let (found, mid, fresh) = lemma_reply_heard(rules, failing, finding, pre, outcome, post);
    if owns_threshold(pre, ctx, metric_id, tid) {
        assert(pre.has_threshold(pre.thresholds[tid]));
    }
    match next(rules, finding, found, fresh) {
        StepView::Wait(writing) => {
            let (updated, end, other) = lemma_reply_heard(rules, failing, writing, mid, outcome, post);
        },
        StepView::Done(_) => {},
    }
}

/// A request to delete a threshold removes it and changes nothing else; it is not found
/// if the tenant has no such threshold on that metric; and either holds unless the
/// database fails.
pub proof fn law_delete_threshold(
    rules: ThresholdRulesView,
    failing: bool,
    ctx: SecurityContext,
    metric_id: Uuid,
    tid: Uuid,
    pre: Store,
    outcome: Result<ResponseView, StatusCode>,
    post: Store,
)
    requires
        pre.well_formed(),
        served(rules, failing, ctx, Request::DeleteThreshold { metric_id, tid }, pre, outcome, post),
    ensures
        match outcome {
            Ok(response) => {
                &&& owns_threshold(pre, ctx, metric_id, tid)
                &&& post == Store { thresholds: pre.thresholds.remove(tid), ..pre }
                &&& response == ResponseView::NoContent
            },
            Err(StatusCode::NotFound) => !owns_threshold(pre, ctx, metric_id, tid) && post == pre,
            Err(status) => failing && status == StatusCode::InternalServerError,
        },
{
    let finding = begin(ctx, Request::DeleteThreshold { metric_id, tid })->Wait_0;
    let (found, mid, fresh) = lemma_reply_heard(rules, failing, finding, pre, outcome, post);
    if owns_threshold(pre, ctx, metric_id, tid) {
        assert(pre.has_threshold(pre.thresholds[tid]));
    }
    match next(rules, finding, found, fresh) {
        StepView::Wait(removing) => {
            let (done, end, other) = lemma_reply_heard(rules, failing, removing, mid, outcome, post);
        },
        StepView::Done(_) => {},
    }
}

/// A request for table columns, of one table or of all, shows each column of the tenant
/// and each that all tenants share once and nothing else, unless the database fails.
pub proof fn law_list_columns(
    rules: ThresholdRulesView,
    failing: bool,
    ctx: SecurityContext,
    table: Option<Seq<char>>,
    pre: Store,
    outcome: Result<ResponseView, StatusCode>,
    post: Store,
)
    requires
        served(rules, failing, ctx, Request::ListColumns { table }, pre, outcome, post),
    ensures
        post == pre,
        match outcome {
            Ok(response) => exists|found: Seq<table_columns::Row>|
                #![trigger columns_of(found)]
                {
                    &&& pre.lists_columns(
                        ColumnFilter { table, tenant: ctx.insight_tenant_id },
                        found,
                    )
                    &&& response == ResponseView::ColumnList(columns_of(found))
                },
            Err(status) => failing && status == StatusCode::InternalServerError,
        },
{
    let pending = begin(ctx, Request::ListColumns { table })->Wait_0;
    let (reply, mid, fresh) = lemma_reply_heard(rules, failing, pending, pre, outcome, post);
}

} // verus!
