//! What answers show of the rows of the database, column by column, and what lists of
//! answers show of lists of rows.

use vstd::prelude::*;

use crate::domain::metric::{Metric, MetricSummary, TableColumn};
use crate::domain::threshold::Threshold;
use crate::entities::active_value::ActiveValue;
use crate::entities::{metrics, table_columns, thresholds};
use crate::mappers::{
    column_of, columns_of, metric_of, summaries_of, summary_of, threshold_of, thresholds_of,
};

verus! {

/// A metric that is shown has every column of the row; its times are in UTC.
pub open spec fn shows_metric<S>(metric: Metric<S>, row: metrics::Model<S>) -> bool {
    &&& metric.id == row.id
    &&& metric.insight_tenant_id == row.insight_tenant_id
    &&& metric.name == row.name
    &&& metric.description == row.description
    &&& metric.query_ref == row.query_ref
    &&& metric.is_enabled == row.is_enabled
    &&& metric.created_at == row.created_at.utc
    &&& metric.updated_at == row.updated_at.utc
}

/// A metric in a list has the id, the name and the description of the row.
pub open spec fn shows_summary<S>(summary: MetricSummary<S>, row: metrics::Model<S>) -> bool {
    &&& summary.id == row.id
    &&& summary.name == row.name
    &&& summary.description == row.description
}

/// A threshold that is shown has every column of the row; its times are in UTC.
pub open spec fn shows_threshold<S>(threshold: Threshold<S>, row: thresholds::Model<S>) -> bool {
    &&& threshold.id == row.id
    &&& threshold.insight_tenant_id == row.insight_tenant_id
    &&& threshold.metric_id == row.metric_id
    &&& threshold.field_name == row.field_name
    &&& threshold.operator == row.operator
    &&& threshold.value == row.value
    &&& threshold.level == row.level
    &&& threshold.created_at == row.created_at.utc
    &&& threshold.updated_at == row.updated_at.utc
}

/// A table column that is shown has every column of the row.
pub open spec fn shows_column<S>(column: TableColumn<S>, row: table_columns::Model<S>) -> bool {
    &&& column.id == row.id
    &&& column.insight_tenant_id == row.insight_tenant_id
    &&& column.clickhouse_table == row.clickhouse_table
    &&& column.field_name == row.field_name
    &&& column.field_description == row.field_description
}

/// A metric is shown with every column of its row.
pub proof fn law_metric_shows_its_row<S>(row: metrics::Model<S>)
    ensures
        shows_metric(metric_of(row), row),
        shows_summary(summary_of(row), row),
{
}

/// A threshold is shown with every column of its row.
pub proof fn law_threshold_shows_its_row<S>(row: thresholds::Model<S>)
    ensures
        shows_threshold(threshold_of(row), row),
{
}

/// A table column is shown with every column of its row.
pub proof fn law_column_shows_its_row<S>(row: table_columns::Model<S>)
    ensures
        shows_column(column_of(row), row),
{
}

/// Lists show one entry for each row, in the order of the rows.
pub proof fn law_lists_show_row_by_row(
    some_metrics: Seq<metrics::Row>,
    some_thresholds: Seq<thresholds::Row>,
    some_columns: Seq<table_columns::Row>,
)
    ensures
        summaries_of(some_metrics).len() == some_metrics.len(),
        forall|i: int|
            0 <= i < some_metrics.len() ==> shows_summary(
                #[trigger] summaries_of(some_metrics)[i],
                some_metrics[i],
            ),
        thresholds_of(some_thresholds).len() == some_thresholds.len(),
        forall|i: int|
            0 <= i < some_thresholds.len() ==> shows_threshold(
                #[trigger] thresholds_of(some_thresholds)[i],
                some_thresholds[i],
            ),
        columns_of(some_columns).len() == some_columns.len(),
        forall|i: int|
            0 <= i < some_columns.len() ==> shows_column(
                #[trigger] columns_of(some_columns)[i],
                some_columns[i],
            ),
{
}

/// A row of a metric that is turned into a write says nothing new: every column holds
/// what it held and is left alone.
pub proof fn law_unchanged_metric_writes_nothing<S>(row: metrics::Model<S>)
    ensures
        row.unchanged().id == ActiveValue::Unchanged(row.id),
        row.unchanged().insight_tenant_id == ActiveValue::Unchanged(row.insight_tenant_id),
        row.unchanged().name == ActiveValue::Unchanged(row.name),
        row.unchanged().description == ActiveValue::Unchanged(row.description),
        row.unchanged().query_ref == ActiveValue::Unchanged(row.query_ref),
        row.unchanged().is_enabled == ActiveValue::Unchanged(row.is_enabled),
        row.unchanged().created_at == ActiveValue::Unchanged(row.created_at),
        row.unchanged().updated_at == ActiveValue::Unchanged(row.updated_at),
{
}

/// A row of a threshold that is turned into a write says nothing new: every column
/// holds what it held and is left alone.
pub proof fn law_unchanged_threshold_writes_nothing<S>(row: thresholds::Model<S>)
    ensures
        row.unchanged().id == ActiveValue::Unchanged(row.id),
        row.unchanged().insight_tenant_id == ActiveValue::Unchanged(row.insight_tenant_id),
        row.unchanged().metric_id == ActiveValue::Unchanged(row.metric_id),
        row.unchanged().field_name == ActiveValue::Unchanged(row.field_name),
        row.unchanged().operator == ActiveValue::Unchanged(row.operator),
        row.unchanged().value == ActiveValue::Unchanged(row.value),
        row.unchanged().level == ActiveValue::Unchanged(row.level),
        row.unchanged().created_at == ActiveValue::Unchanged(row.created_at),
        row.unchanged().updated_at == ActiveValue::Unchanged(row.updated_at),
{
}

} // verus!
