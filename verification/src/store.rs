//! What the database holds, and what calls do to it: a model that the laws of the
//! API are stated over.

use vstd::prelude::*;

use crate::domain::threshold::ThresholdRulesView;
use crate::entities::active_value::ActiveValue;
use crate::entities::{metrics, table_columns, thresholds};
use crate::handlers::{lemma_next_is_closer, calls_left, next};
use crate::ids::{is_version_7, Uuid};
use crate::pending::{PendingView, StepView};
use crate::protocol::{CallView, ColumnFilter, MetricFilter, ReplyView, ThresholdFilter};
use crate::response::{ResponseView, StatusCode};

verus! {

/// The rows of each table, by their ids.
pub struct Store {
    pub metrics: Map<Uuid, metrics::Row>,
    pub thresholds: Map<Uuid, thresholds::Row>,
    pub columns: Map<Uuid, table_columns::Row>,
}

impl Store {
    /// Each row stands under its own id.
    pub open spec fn well_formed(self) -> bool {
        &&& forall|id: Uuid| #[trigger]
            self.metrics.contains_key(id) ==> self.metrics[id].id == id
        &&& forall|id: Uuid| #[trigger]
            self.thresholds.contains_key(id) ==> self.thresholds[id].id == id
        &&& forall|id: Uuid| #[trigger]
            self.columns.contains_key(id) ==> self.columns[id].id == id
    }

    /// A metric is in the store.
    pub open spec fn has_metric(self, row: metrics::Row) -> bool {
        self.metrics.contains_key(row.id) && self.metrics[row.id] == row
    }

    /// A threshold is in the store.
    pub open spec fn has_threshold(self, row: thresholds::Row) -> bool {
        self.thresholds.contains_key(row.id) && self.thresholds[row.id] == row
    }

    /// A table column is in the store.
    pub open spec fn has_column(self, row: table_columns::Row) -> bool {
        self.columns.contains_key(row.id) && self.columns[row.id] == row
    }

    /// `list` holds each metric that the filter selects once, in any order.
    pub open spec fn lists_metrics(self, filter: MetricFilter, list: Seq<metrics::Row>) -> bool {
        &&& list.no_duplicates()
        &&& forall|row: metrics::Row| #[trigger]
            list.contains(row) <==> self.has_metric(row) && filter.selects(row)
    }

    /// `list` holds each threshold that the filter selects once, in any order.
    pub open spec fn lists_thresholds(
        self,
        filter: ThresholdFilter,
        list: Seq<thresholds::Row>,
    ) -> bool {
        &&& list.no_duplicates()
        &&& forall|row: thresholds::Row| #[trigger]
            list.contains(row) <==> self.has_threshold(row) && filter.selects(row)
    }

    /// `list` holds each table column that the filter selects once, in any order.
    pub open spec fn lists_columns(
        self,
        filter: ColumnFilter<Seq<char>>,
        list: Seq<table_columns::Row>,
    ) -> bool {
        &&& list.no_duplicates()
        &&& forall|row: table_columns::Row| #[trigger]
            list.contains(row) <==> self.has_column(row) && filter.selects(row)
    }
}

/// A column of a new row holds what the insertion says of it, if it says anything.
pub open spec fn inserted<T>(value: ActiveValue<T>, held: T) -> bool {
    match value {
        ActiveValue::Assigned(given) => held == given,
        ActiveValue::Unchanged(given) => held == given,
        ActiveValue::NotSet => true,
    }
}

/// A column that names the row that a change is about.
pub open spec fn names(value: ActiveValue<Uuid>, id: Uuid) -> bool {
    match value {
        ActiveValue::Assigned(given) => given == id,
        ActiveValue::Unchanged(given) => given == id,
        ActiveValue::NotSet => false,
    }
}

/// An insertion leaves `row` in the table of metrics.
pub open spec fn metric_inserted(active: metrics::ActiveRow, row: metrics::Row) -> bool {
    &&& inserted(active.id, row.id)
    &&& inserted(active.insight_tenant_id, row.insight_tenant_id)
    &&& inserted(active.name, row.name)
    &&& inserted(active.description, row.description)
    &&& inserted(active.query_ref, row.query_ref)
    &&& inserted(active.is_enabled, row.is_enabled)
    &&& inserted(active.created_at, row.created_at)
    &&& inserted(active.updated_at, row.updated_at)
}

/// A change makes `after` of `before`. The database may touch the time of the last
/// change on its own.
pub open spec fn metric_updated(
    active: metrics::ActiveRow,
    before: metrics::Row,
    after: metrics::Row,
) -> bool {
    &&& after.id == before.id
    &&& after.insight_tenant_id == active.insight_tenant_id.over(before.insight_tenant_id)
    &&& after.name == active.name.over(before.name)
    &&& after.description == active.description.over(before.description)
    &&& after.query_ref == active.query_ref.over(before.query_ref)
    &&& after.is_enabled == active.is_enabled.over(before.is_enabled)
    &&& after.created_at == active.created_at.over(before.created_at)
}

/// An insertion leaves `row` in the table of thresholds.
pub open spec fn threshold_inserted(active: thresholds::ActiveRow, row: thresholds::Row) -> bool {
    &&& inserted(active.id, row.id)
    &&& inserted(active.insight_tenant_id, row.insight_tenant_id)
    &&& inserted(active.metric_id, row.metric_id)
    &&& inserted(active.field_name, row.field_name)
    &&& inserted(active.operator, row.operator)
    &&& inserted(active.value, row.value)
    &&& inserted(active.level, row.level)
    &&& inserted(active.created_at, row.created_at)
    &&& inserted(active.updated_at, row.updated_at)
}

/// A change makes `after` of `before`. The database may touch the time of the last
/// change on its own.
pub open spec fn threshold_updated(
    active: thresholds::ActiveRow,
    before: thresholds::Row,
    after: thresholds::Row,
) -> bool {
    &&& after.id == before.id
    &&& after.insight_tenant_id == active.insight_tenant_id.over(before.insight_tenant_id)
    &&& after.metric_id == active.metric_id.over(before.metric_id)
    &&& after.field_name == active.field_name.over(before.field_name)
    &&& after.operator == active.operator.over(before.operator)
    &&& after.value == active.value.over(before.value)
    &&& after.level == active.level.over(before.level)
    &&& after.created_at == active.created_at.over(before.created_at)
}

/// `post` is `pre` with a new metric.
pub open spec fn adds_metric(pre: Store, row: metrics::Row, post: Store) -> bool {
    &&& !pre.metrics.contains_key(row.id)
    &&& post == Store { metrics: pre.metrics.insert(row.id, row), ..pre }
}

/// `post` is `pre` with another row for a metric.
pub open spec fn replaces_metric(pre: Store, row: metrics::Row, post: Store) -> bool {
    &&& pre.metrics.contains_key(row.id)
    &&& post == Store { metrics: pre.metrics.insert(row.id, row), ..pre }
}

/// `post` is `pre` with a new threshold.
pub open spec fn adds_threshold(pre: Store, row: thresholds::Row, post: Store) -> bool {
    &&& !pre.thresholds.contains_key(row.id)
    &&& post == Store { thresholds: pre.thresholds.insert(row.id, row), ..pre }
}

/// `post` is `pre` with another row for a threshold.
pub open spec fn replaces_threshold(pre: Store, row: thresholds::Row, post: Store) -> bool {
    &&& pre.thresholds.contains_key(row.id)
    &&& post == Store { thresholds: pre.thresholds.insert(row.id, row), ..pre }
}

/// A call that writes takes the store from `pre` to `post`.
pub open spec fn writes(pre: Store, call: CallView, post: Store) -> bool {
    match call {
        CallView::InsertMetric(active) => exists|row: metrics::Row|
            metric_inserted(active, row) && #[trigger] adds_metric(pre, row, post),
        CallView::UpdateMetric(active) => exists|row: metrics::Row|
            names(active.id, row.id) && #[trigger] replaces_metric(pre, row, post)
                && metric_updated(active, pre.metrics[row.id], row),
        CallView::InsertThreshold(active) => exists|row: thresholds::Row|
            threshold_inserted(active, row) && #[trigger] adds_threshold(pre, row, post),
        CallView::UpdateThreshold(active) => exists|row: thresholds::Row|
            names(active.id, row.id) && #[trigger] replaces_threshold(pre, row, post)
                && threshold_updated(active, pre.thresholds[row.id], row),
        CallView::DeleteThreshold(id) => post == Store {
            thresholds: pre.thresholds.remove(id),
            ..pre
        },
        _ => false,
    }
}

/// On a store `pre`, `call` is replied with `reply` and leaves `post`. A call to the
/// database may fail at any time, whether or not it was carried out; comparisons may
/// come out in any way.
pub open spec fn performs(pre: Store, call: CallView, reply: ReplyView, post: Store) -> bool {
    match reply {
        ReplyView::Failed => !(call is Compare) && (post == pre || writes(pre, call, post)),
        ReplyView::Metrics(list) => {
            &&& call matches CallView::AllMetrics(filter)
            &&& pre.lists_metrics(filter, list)
            &&& post == pre
        },
        ReplyView::Metric(Some(row)) => {
            &&& call matches CallView::OneMetric(filter)
            &&& pre.has_metric(row)
            &&& filter.selects(row)
            &&& post == pre
        },
        ReplyView::Metric(None) => {
            &&& call matches CallView::OneMetric(filter)
            &&& forall|row: metrics::Row| #[trigger] pre.has_metric(row) ==> !filter.selects(row)
            &&& post == pre
        },
        ReplyView::UpdatedMetric(row) => {
            &&& call matches CallView::UpdateMetric(active)
            &&& names(active.id, row.id)
            &&& replaces_metric(pre, row, post)
            &&& metric_updated(active, pre.metrics[row.id], row)
        },
        ReplyView::Thresholds(list) => {
            &&& call matches CallView::AllThresholds(filter)
            &&& pre.lists_thresholds(filter, list)
            &&& post == pre
        },
        ReplyView::Threshold(Some(row)) => {
            &&& call matches CallView::OneThreshold(filter)
            &&& pre.has_threshold(row)
            &&& filter.selects(row)
            &&& post == pre
        },
        ReplyView::Threshold(None) => {
            &&& call matches CallView::OneThreshold(filter)
            &&& forall|row: thresholds::Row| #[trigger]
                pre.has_threshold(row) ==> !filter.selects(row)
            &&& post == pre
        },
        ReplyView::UpdatedThreshold(row) => {
            &&& call matches CallView::UpdateThreshold(active)
            &&& names(active.id, row.id)
            &&& replaces_threshold(pre, row, post)
            &&& threshold_updated(active, pre.thresholds[row.id], row)
        },
        ReplyView::Columns(list) => {
            &&& call matches CallView::AllColumns(filter)
            &&& pre.lists_columns(filter, list)
            &&& post == pre
        },
        ReplyView::Done => {
            &&& call is InsertMetric || call is InsertThreshold || call is DeleteThreshold
            &&& writes(pre, call, post)
        },
        ReplyView::Verdicts(_) => call is Compare && post == pre,
    }
}

/// A request that has come to `step`, on a store `pre` that nothing else writes to,
/// can end with `outcome` and leave `post`; calls to the database fail only if
/// `failing` holds.
pub open spec fn ends(
    rules: ThresholdRulesView,
    failing: bool,
    step: StepView,
    pre: Store,
    outcome: Result<ResponseView, StatusCode>,
    post: Store,
) -> bool
    decreases calls_left(step),
{
    match step {
        StepView::Done(result) => result == outcome && post == pre,
        StepView::Wait(pending) => {
            proof {
                lemma_next_is_closer(rules, pending);
            }
            exists|reply: ReplyView, mid: Store, fresh: Uuid|
                #![trigger performs(pre, pending.call, reply, mid), next(rules, pending, reply, fresh)]
                performs(pre, pending.call, reply, mid) && (failing || !(reply is Failed))
                    && is_version_7(fresh) && ends(
                    rules,
                    failing,
                    next(rules, pending, reply, fresh),
                    mid,
                    outcome,
                    post,
                )
        },
    }
}

/// A request that waits has heard a reply before it ends.
pub proof fn lemma_reply_heard(
    rules: ThresholdRulesView,
    failing: bool,
    pending: PendingView,
    pre: Store,
    outcome: Result<ResponseView, StatusCode>,
    post: Store,
) -> (heard: (ReplyView, Store, Uuid))
    requires
        ends(rules, failing, StepView::Wait(pending), pre, outcome, post),
    ensures
        performs(pre, pending.call, heard.0, heard.1),
        failing || !(heard.0 is Failed),
        is_version_7(heard.2),
        ends(rules, failing, next(rules, pending, heard.0, heard.2), heard.1, outcome, post),
        calls_left(next(rules, pending, heard.0, heard.2)) < calls_left(StepView::Wait(pending)),
{
    lemma_next_is_closer(rules, pending);
    choose|reply: ReplyView, mid: Store, fresh: Uuid|
        #![trigger performs(pre, pending.call, reply, mid), next(rules, pending, reply, fresh)]
        performs(pre, pending.call, reply, mid) && (failing || !(reply is Failed))
            && is_version_7(fresh) && ends(
            rules,
            failing,
            next(rules, pending, reply, fresh),
            mid,
            outcome,
            post,
        )
}

} // verus!
