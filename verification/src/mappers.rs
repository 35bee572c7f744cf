//! From rows of the database to what the API shows.

use vstd::prelude::*;

use crate::domain::metric::{Metric, MetricSummary, TableColumn};
use crate::domain::threshold::Threshold;
use crate::entities::{metrics, table_columns, thresholds};

verus! {

/// A metric, as the API shows it: the row with its times in UTC.
pub open spec fn metric_of<S>(m: metrics::Model<S>) -> Metric<S> {
    Metric {
        id: m.id,
        insight_tenant_id: m.insight_tenant_id,
        name: m.name,
        description: m.description,
        query_ref: m.query_ref,
        is_enabled: m.is_enabled,
        created_at: m.created_at.utc,
        updated_at: m.updated_at.utc,
    }
}

/// A metric in a list.
pub open spec fn summary_of<S>(m: metrics::Model<S>) -> MetricSummary<S> {
    MetricSummary { id: m.id, name: m.name, description: m.description }
}

/// A threshold, as the API shows it: the row with its times in UTC.
pub open spec fn threshold_of<S>(m: thresholds::Model<S>) -> Threshold<S> {
    Threshold {
        id: m.id,
        insight_tenant_id: m.insight_tenant_id,
        metric_id: m.metric_id,
        field_name: m.field_name,
        operator: m.operator,
        value: m.value,
        level: m.level,
        created_at: m.created_at.utc,
        updated_at: m.updated_at.utc,
    }
}

/// A table column, as the API shows it.
pub open spec fn column_of<S>(m: table_columns::Model<S>) -> TableColumn<S> {
    TableColumn {
        id: m.id,
        insight_tenant_id: m.insight_tenant_id,
        clickhouse_table: m.clickhouse_table,
        field_name: m.field_name,
        field_description: m.field_description,
    }
}

/// The summaries of a list of metrics, in order.
pub open spec fn summaries_of(list: Seq<metrics::Row>) -> Seq<MetricSummary<Seq<char>>> {
    list.map_values(|m: metrics::Row| summary_of(m))
}

/// The thresholds of a list, in order.
pub open spec fn thresholds_of(list: Seq<thresholds::Row>) -> Seq<Threshold<Seq<char>>> {
    list.map_values(|m: thresholds::Row| threshold_of(m))
}

/// The table columns of a list, in order.
pub open spec fn columns_of(list: Seq<table_columns::Row>) -> Seq<TableColumn<Seq<char>>> {
    list.map_values(|m: table_columns::Row| column_of(m))
}

/// A metric, as the API shows it.
pub fn model_to_metric(m: metrics::Model) -> (metric: Metric)
    ensures
        metric@ == metric_of(m@),
{
    Metric {
        id: m.id,
        insight_tenant_id: m.insight_tenant_id,
        name: m.name,
        description: m.description,
        query_ref: m.query_ref,
        is_enabled: m.is_enabled,
        created_at: m.created_at.naive_utc(),
        updated_at: m.updated_at.naive_utc(),
    }
}

/// A metric in a list.
pub fn model_to_metric_summary(m: metrics::Model) -> (summary: MetricSummary)
    ensures
        summary@ == summary_of(m@),
{
    MetricSummary { id: m.id, name: m.name, description: m.description }
}

/// A threshold, as the API shows it.
pub fn model_to_threshold(m: thresholds::Model) -> (threshold: Threshold)
    ensures
        threshold@ == threshold_of(m@),
{
    Threshold {
        id: m.id,
        insight_tenant_id: m.insight_tenant_id,
        metric_id: m.metric_id,
        field_name: m.field_name,
        operator: m.operator,
        value: m.value,
        level: m.level,
        created_at: m.created_at.naive_utc(),
        updated_at: m.updated_at.naive_utc(),
    }
}

/// A table column, as the API shows it.
pub fn model_to_column(m: table_columns::Model) -> (column: TableColumn)
    ensures
        column@ == column_of(m@),
{
    TableColumn {
        id: m.id,
        insight_tenant_id: m.insight_tenant_id,
        clickhouse_table: m.clickhouse_table,
        field_name: m.field_name,
        field_description: m.field_description,
    }
}

/// The summaries of a list of metrics, in order.
pub fn metric_summaries(list: Vec<metrics::Model>) -> (items: Vec<MetricSummary>)
    ensures
        items@.map_values(|m: MetricSummary| m@) == summaries_of(metrics::rows(list@)),
{
    let mut items: Vec<MetricSummary> = Vec::new();
    for m in it: list
        invariant
            it.seq() == list@,
            items@.len() == it.index(),
            forall|i: int|
                0 <= i < items@.len() ==> (#[trigger] items@[i])@ == summary_of(list@[i]@),
    {
        items.push(model_to_metric_summary(m));
    }
    assert(items@.map_values(|m: MetricSummary| m@) =~= summaries_of(metrics::rows(list@)));
    items
}

/// The thresholds of a list, in order.
pub fn threshold_list(list: Vec<thresholds::Model>) -> (items: Vec<Threshold>)
    ensures
        items@.map_values(|t: Threshold| t@) == thresholds_of(thresholds::rows(list@)),
{
    let mut items: Vec<Threshold> = Vec::new();
    for m in it: list
        invariant
            it.seq() == list@,
            items@.len() == it.index(),
            forall|i: int|
                0 <= i < items@.len() ==> (#[trigger] items@[i])@ == threshold_of(list@[i]@),
    {
        items.push(model_to_threshold(m));
    }
    assert(items@.map_values(|t: Threshold| t@) =~= thresholds_of(thresholds::rows(list@)));
    items
}

/// The table columns of a list, in order.
pub fn column_list(list: Vec<table_columns::Model>) -> (items: Vec<TableColumn>)
    ensures
        items@.map_values(|c: TableColumn| c@) == columns_of(table_columns::rows(list@)),
{
    let mut items: Vec<TableColumn> = Vec::new();
    for m in it: list
        invariant
            it.seq() == list@,
            items@.len() == it.index(),
            forall|i: int|
                0 <= i < items@.len() ==> (#[trigger] items@[i])@ == column_of(list@[i]@),
    {
        items.push(model_to_column(m));
    }
    assert(items@.map_values(|c: TableColumn| c@) =~= columns_of(table_columns::rows(list@)));
    items
}

} // verus!
