//! Metrics and table columns, as the API shows and takes them.

use vstd::prelude::*;

use crate::ids::Uuid;
use crate::text::opt_text;
use crate::time::NaiveDateTime;

verus! {

/// A metric.
#[derive(Debug, PartialEq, Eq)]
pub struct Metric<S = String> {
    pub id: Uuid,
    pub insight_tenant_id: Uuid,
    pub name: S,
    pub description: Option<S>,
    pub query_ref: S,
    pub is_enabled: bool,
    pub created_at: NaiveDateTime,
    pub updated_at: NaiveDateTime,
}

/// A metric in a list of metrics.
#[derive(Debug, PartialEq, Eq)]
pub struct MetricSummary<S = String> {
    pub id: Uuid,
    pub name: S,
    pub description: Option<S>,
}

/// A column of an analytics table.
#[derive(Debug, PartialEq, Eq)]
pub struct TableColumn<S = String> {
    pub id: Uuid,
    pub insight_tenant_id: Option<Uuid>,
    pub clickhouse_table: S,
    pub field_name: S,
    pub field_description: Option<S>,
}

/// The body of a request to create a metric.
#[derive(Debug, PartialEq, Eq)]
pub struct CreateMetricRequest<S = String> {
    pub name: S,
    pub description: Option<S>,
    pub query_ref: S,
}

/// The body of a request to change a metric: what is absent stays.
#[derive(Debug, PartialEq, Eq)]
pub struct UpdateMetricRequest<S = String> {
    pub name: Option<S>,
    pub description: Option<S>,
    pub query_ref: Option<S>,
    pub is_enabled: Option<bool>,
}

impl View for Metric {
    type V = Metric<Seq<char>>;

    open spec fn view(&self) -> Metric<Seq<char>> {
        Metric {
            id: self.id,
            insight_tenant_id: self.insight_tenant_id,
            name: self.name@,
            description: opt_text(self.description),
            query_ref: self.query_ref@,
            is_enabled: self.is_enabled,
            created_at: self.created_at,
            updated_at: self.updated_at,
        }
    }
}

impl View for MetricSummary {
    type V = MetricSummary<Seq<char>>;

    open spec fn view(&self) -> MetricSummary<Seq<char>> {
        MetricSummary {
            id: self.id,
            name: self.name@,
            description: opt_text(self.description),
        }
    }
}

impl View for TableColumn {
    type V = TableColumn<Seq<char>>;

    open spec fn view(&self) -> TableColumn<Seq<char>> {
        TableColumn {
            id: self.id,
            insight_tenant_id: self.insight_tenant_id,
            clickhouse_table: self.clickhouse_table@,
            field_name: self.field_name@,
            field_description: opt_text(self.field_description),
        }
    }
}

impl View for CreateMetricRequest {
    type V = CreateMetricRequest<Seq<char>>;

    open spec fn view(&self) -> CreateMetricRequest<Seq<char>> {
        CreateMetricRequest {
            name: self.name@,
            description: opt_text(self.description),
            query_ref: self.query_ref@,
        }
    }
}

impl View for UpdateMetricRequest {
    type V = UpdateMetricRequest<Seq<char>>;

    open spec fn view(&self) -> UpdateMetricRequest<Seq<char>> {
        UpdateMetricRequest {
            name: opt_text(self.name),
            description: opt_text(self.description),
            query_ref: opt_text(self.query_ref),
            is_enabled: self.is_enabled,
        }
    }
}

} // verus!
