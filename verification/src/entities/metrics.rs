//! The table of metrics.

use vstd::prelude::*;

use super::active_value::{active_opt_text, active_text, ActiveValue};
use crate::ids::Uuid;
use crate::text::opt_text;
use crate::time::DateTimeWithTimeZone;

verus! {

/// A row of the table.
#[derive(Debug, PartialEq, Eq)]
pub struct Model<S = String> {
    pub id: Uuid,
    pub insight_tenant_id: Uuid,
    pub name: S,
    pub description: Option<S>,
    pub query_ref: S,
    pub is_enabled: bool,
    pub created_at: DateTimeWithTimeZone,
    pub updated_at: DateTimeWithTimeZone,
}

/// A row to be written.
#[derive(Debug, PartialEq, Eq)]
pub struct ActiveModel<S = String> {
    pub id: ActiveValue<Uuid>,
    pub insight_tenant_id: ActiveValue<Uuid>,
    pub name: ActiveValue<S>,
    pub description: ActiveValue<Option<S>>,
    pub query_ref: ActiveValue<S>,
    pub is_enabled: ActiveValue<bool>,
    pub created_at: ActiveValue<DateTimeWithTimeZone>,
    pub updated_at: ActiveValue<DateTimeWithTimeZone>,
}

/// What a row holds.
pub type Row = Model<Seq<char>>;

/// What a row to be written holds.
pub type ActiveRow = ActiveModel<Seq<char>>;

impl View for Model {
    type V = Row;

    open spec fn view(&self) -> Row {
        Model {
            id: self.id,
            insight_tenant_id: self.insight_tenant_id,
            name: self.name@,
            description: opt_text(self.description),
            query_ref: self.query_ref@,
            is_enabled: self.is_enabled,
            created_at: self.created_at,
            updated_at: self.updated_at,
        }
    }
}

impl View for ActiveModel {
    type V = ActiveRow;

    open spec fn view(&self) -> ActiveRow {
        ActiveModel {
            id: self.id,
            insight_tenant_id: self.insight_tenant_id,
            name: active_text(self.name),
            description: active_opt_text(self.description),
            query_ref: active_text(self.query_ref),
            is_enabled: self.is_enabled,
            created_at: self.created_at,
            updated_at: self.updated_at,
        }
    }
}

/// The rows of a list.
pub open spec fn rows(models: Seq<Model>) -> Seq<Row> {
    models.map_values(|m: Model| m@)
}

impl<S> Model<S> {
    /// The row as a write that changes nothing yet.
    pub open spec fn unchanged(self) -> ActiveModel<S> {
        ActiveModel {
            id: ActiveValue::Unchanged(self.id),
            insight_tenant_id: ActiveValue::Unchanged(self.insight_tenant_id),
            name: ActiveValue::Unchanged(self.name),
            description: ActiveValue::Unchanged(self.description),
            query_ref: ActiveValue::Unchanged(self.query_ref),
            is_enabled: ActiveValue::Unchanged(self.is_enabled),
            created_at: ActiveValue::Unchanged(self.created_at),
            updated_at: ActiveValue::Unchanged(self.updated_at),
        }
    }

    /// The row as a write that changes nothing yet.
    pub fn into_active_model(self) -> (active: ActiveModel<S>)
        ensures
            active == self.unchanged(),
    {
        ActiveModel {
            id: ActiveValue::Unchanged(self.id),
            insight_tenant_id: ActiveValue::Unchanged(self.insight_tenant_id),
            name: ActiveValue::Unchanged(self.name),
            description: ActiveValue::Unchanged(self.description),
            query_ref: ActiveValue::Unchanged(self.query_ref),
            is_enabled: ActiveValue::Unchanged(self.is_enabled),
            created_at: ActiveValue::Unchanged(self.created_at),
            updated_at: ActiveValue::Unchanged(self.updated_at),
        }
    }
}

} // verus!
