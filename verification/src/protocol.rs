//! What a request asks of the database and of the comparison of numbers, and what
//! it hears back.

use vstd::prelude::*;

use crate::entities::{metrics, table_columns, thresholds};
use crate::ids::Uuid;
use crate::levels::{comparison_lists, verdict_lists, Comparison};
use crate::text::opt_text;

verus! {

/// Which metrics a statement is about: those that meet every condition given.
#[derive(Clone, Copy, Debug, PartialEq, Eq)]
pub struct MetricFilter {
    pub id: Option<Uuid>,
    pub tenant: Option<Uuid>,
    pub enabled_only: bool,
}

/// Which thresholds a statement is about: those that meet every condition given.
#[derive(Clone, Copy, Debug, PartialEq, Eq)]
pub struct ThresholdFilter {
    pub id: Option<Uuid>,
    pub metric_id: Option<Uuid>,
    pub tenant: Option<Uuid>,
}

/// Which table columns a statement is about: those of the table, if one is given,
/// that belong to the tenant or to no tenant.
#[derive(Debug, PartialEq, Eq)]
pub struct ColumnFilter<S = String> {
    pub table: Option<S>,
    pub tenant: Uuid,
}

impl View for ColumnFilter {
    type V = ColumnFilter<Seq<char>>;

    open spec fn view(&self) -> ColumnFilter<Seq<char>> {
        ColumnFilter { table: opt_text(self.table), tenant: self.tenant }
    }
}

/// `value` meets a condition, if there is one.
pub open spec fn meets(condition: Option<Uuid>, value: Uuid) -> bool {
    condition matches Some(wanted) ==> value == wanted
}

impl MetricFilter {
    /// A metric meets the conditions.
    pub open spec fn selects(self, row: metrics::Row) -> bool {
        &&& meets(self.id, row.id)
        &&& meets(self.tenant, row.insight_tenant_id)
        &&& self.enabled_only ==> row.is_enabled
    }
}

impl ThresholdFilter {
    /// A threshold meets the conditions.
    pub open spec fn selects(self, row: thresholds::Row) -> bool {
        &&& meets(self.id, row.id)
        &&& meets(self.metric_id, row.metric_id)
        &&& meets(self.tenant, row.insight_tenant_id)
    }
}

impl ColumnFilter<Seq<char>> {
    /// A table column meets the conditions.
    pub open spec fn selects(self, row: table_columns::Row) -> bool {
        &&& self.table matches Some(table) ==> row.clickhouse_table == table
        &&& row.insight_tenant_id is None || row.insight_tenant_id == Some(self.tenant)
    }
}

/// What a request asks for.
#[derive(Debug, PartialEq, Eq)]
pub enum Call {
    /// All metrics that a filter selects.
    AllMetrics(MetricFilter),
    /// One metric that a filter selects.
    OneMetric(MetricFilter),
    /// A new row in the table of metrics.
    InsertMetric(metrics::ActiveModel),
    /// A change to the row of that id in the table of metrics.
    UpdateMetric(metrics::ActiveModel),
    /// All thresholds that a filter selects.
    AllThresholds(ThresholdFilter),
    /// One threshold that a filter selects.
    OneThreshold(ThresholdFilter),
    /// A new row in the table of thresholds.
    InsertThreshold(thresholds::ActiveModel),
    /// A change to the row of that id in the table of thresholds.
    UpdateThreshold(thresholds::ActiveModel),
    /// The removal of the row of that id from the table of thresholds.
    DeleteThreshold(Uuid),
    /// All table columns that a filter selects.
    AllColumns(ColumnFilter),
    /// Comparisons of numbers, row by row; none is called for where there is none.
    Compare(Vec<Vec<Option<Comparison>>>),
}

/// What a request asks for.
pub enum CallView {
    AllMetrics(MetricFilter),
    OneMetric(MetricFilter),
    InsertMetric(metrics::ActiveRow),
    UpdateMetric(metrics::ActiveRow),
    AllThresholds(ThresholdFilter),
    OneThreshold(ThresholdFilter),
    InsertThreshold(thresholds::ActiveRow),
    UpdateThreshold(thresholds::ActiveRow),
    DeleteThreshold(Uuid),
    AllColumns(ColumnFilter<Seq<char>>),
    Compare(Seq<Seq<Option<Comparison<Seq<char>>>>>),
}

impl View for Call {
    type V = CallView;

    open spec fn view(&self) -> CallView {
        match *self {
            Call::AllMetrics(filter) => CallView::AllMetrics(filter),
            Call::OneMetric(filter) => CallView::OneMetric(filter),
            Call::InsertMetric(row) => CallView::InsertMetric(row@),
            Call::UpdateMetric(row) => CallView::UpdateMetric(row@),
            Call::AllThresholds(filter) => CallView::AllThresholds(filter),
            Call::OneThreshold(filter) => CallView::OneThreshold(filter),
            Call::InsertThreshold(row) => CallView::InsertThreshold(row@),
            Call::UpdateThreshold(row) => CallView::UpdateThreshold(row@),
            Call::DeleteThreshold(id) => CallView::DeleteThreshold(id),
            Call::AllColumns(filter) => CallView::AllColumns(filter@),
            Call::Compare(lists) => CallView::Compare(comparison_lists(lists@)),
        }
    }
}

/// What a request hears back.
#[derive(Debug, PartialEq, Eq)]
pub enum Reply {
    /// The database failed.
    Failed,
    /// The metrics that were asked for.
    Metrics(Vec<metrics::Model>),
    /// The metric that was asked for, if there is one.
    Metric(Option<metrics::Model>),
    /// A metric after a change.
    UpdatedMetric(metrics::Model),
    /// The thresholds that were asked for.
    Thresholds(Vec<thresholds::Model>),
    /// The threshold that was asked for, if there is one.
    Threshold(Option<thresholds::Model>),
    /// A threshold after a change.
    UpdatedThreshold(thresholds::Model),
    /// The table columns that were asked for.
    Columns(Vec<table_columns::Model>),
    /// An insertion or a removal is done.
    Done,
    /// How comparisons came out, row by row.
    Verdicts(Vec<Vec<bool>>),
}

/// What a request hears back.
pub enum ReplyView {
    Failed,
    Metrics(Seq<metrics::Row>),
    Metric(Option<metrics::Row>),
    UpdatedMetric(metrics::Row),
    Thresholds(Seq<thresholds::Row>),
    Threshold(Option<thresholds::Row>),
    UpdatedThreshold(thresholds::Row),
    Columns(Seq<table_columns::Row>),
    Done,
    Verdicts(Seq<Seq<bool>>),
}

impl View for Reply {
    type V = ReplyView;

    open spec fn view(&self) -> ReplyView {
        match *self {
            Reply::Failed => ReplyView::Failed,
            Reply::Metrics(list) => ReplyView::Metrics(metrics::rows(list@)),
            Reply::Metric(Some(row)) => ReplyView::Metric(Some(row@)),
            Reply::Metric(None) => ReplyView::Metric(None),
            Reply::UpdatedMetric(row) => ReplyView::UpdatedMetric(row@),
            Reply::Thresholds(list) => ReplyView::Thresholds(thresholds::rows(list@)),
            Reply::Threshold(Some(row)) => ReplyView::Threshold(Some(row@)),
            Reply::Threshold(None) => ReplyView::Threshold(None),
            Reply::UpdatedThreshold(row) => ReplyView::UpdatedThreshold(row@),
            Reply::Columns(list) => ReplyView::Columns(table_columns::rows(list@)),
            Reply::Done => ReplyView::Done,
            Reply::Verdicts(lists) => ReplyView::Verdicts(verdict_lists(lists@)),
        }
    }
}

} // verus!
