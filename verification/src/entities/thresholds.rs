//! The table of thresholds.

use vstd::prelude::*;

use super::active_value::{active_text, ActiveValue};
use crate::domain::threshold::Double;
use crate::ids::Uuid;
use crate::time::DateTimeWithTimeZone;

verus! {

/// A row of the table.
#[derive(Debug, PartialEq, Eq)]
pub struct Model<S = String> {
    pub id: Uuid,
    pub insight_tenant_id: Uuid,
    pub metric_id: Uuid,
    pub field_name: S,
    pub operator: S,
    pub value: Double,
    pub level: S,
    pub created_at: DateTimeWithTimeZone,
    pub updated_at: DateTimeWithTimeZone,
}

/// A row to be written.
#[derive(Debug, PartialEq, Eq)]
pub struct ActiveModel<S = String> {
    pub id: ActiveValue<Uuid>,
    pub insight_tenant_id: ActiveValue<Uuid>,
    pub metric_id: ActiveValue<Uuid>,
    pub field_name: ActiveValue<S>,
    pub operator: ActiveValue<S>,
    pub value: ActiveValue<Double>,
    pub level: ActiveValue<S>,
    pub created_at: ActiveValue<DateTimeWithTimeZone>,
    pub updated_at: ActiveValue<DateTimeWithTimeZone>,
}

/// What a row holds.
pub type Row = Model<Seq<char>>;

/// What a row to be written holds.
pub type ActiveRow = ActiveModel<Seq<char>>;

impl View for Model {
    type V = Row;

    open spec fn view(&self) -> Row {
        Model {
            id: self.id,
            insight_tenant_id: self.insight_tenant_id,
            metric_id: self.metric_id,
            field_name: self.field_name@,
            operator: self.operator@,
            value: self.value,
            level: self.level@,
            created_at: self.created_at,
            updated_at: self.updated_at,
        }
    }
}

impl View for ActiveModel {
    type V = ActiveRow;

    open spec fn view(&self) -> ActiveRow {
        ActiveModel {
            id: self.id,
            insight_tenant_id: self.insight_tenant_id,
            metric_id: self.metric_id,
            field_name: active_text(self.field_name),
            operator: active_text(self.operator),
            value: self.value,
            level: active_text(self.level),
            created_at: self.created_at,
            updated_at: self.updated_at,
        }
    }
}

/// The rows of a list.
pub open spec fn rows(models: Seq<Model>) -> Seq<Row> {
    models.map_values(|m: Model| m@)
}

impl<S> Model<S> {
    /// The row as a write that changes nothing yet.
    pub open spec fn unchanged(self) -> ActiveModel<S> {
        ActiveModel {
            id: ActiveValue::Unchanged(self.id),
            insight_tenant_id: ActiveValue::Unchanged(self.insight_tenant_id),
            metric_id: ActiveValue::Unchanged(self.metric_id),
            field_name: ActiveValue::Unchanged(self.field_name),
            operator: ActiveValue::Unchanged(self.operator),
            value: ActiveValue::Unchanged(self.value),
            level: ActiveValue::Unchanged(self.level),
            created_at: ActiveValue::Unchanged(self.created_at),
            updated_at: ActiveValue::Unchanged(self.updated_at),
        }
    }

    /// The row as a write that changes nothing yet.
    pub fn into_active_model(self) -> (active: ActiveModel<S>)
        ensures
            active == self.unchanged(),
    {
        ActiveModel {
            id: ActiveValue::Unchanged(self.id),
            insight_tenant_id: ActiveValue::Unchanged(self.insight_tenant_id),
            metric_id: ActiveValue::Unchanged(self.metric_id),
            field_name: ActiveValue::Unchanged(self.field_name),
            operator: ActiveValue::Unchanged(self.operator),
            value: ActiveValue::Unchanged(self.value),
            level: ActiveValue::Unchanged(self.level),
            created_at: ActiveValue::Unchanged(self.created_at),
            updated_at: ActiveValue::Unchanged(self.updated_at),
        }
    }
}

} // verus!
