//! The table that describes the columns of the analytics tables.

use vstd::prelude::*;

use crate::ids::Uuid;
use crate::text::opt_text;

verus! {

/// A row of the table. A row without a tenant is shared by all tenants.
#[derive(Debug, PartialEq, Eq)]
pub struct Model<S = String> {
    pub id: Uuid,
    pub insight_tenant_id: Option<Uuid>,
    pub clickhouse_table: S,
    pub field_name: S,
    pub field_description: Option<S>,
}

/// What a row holds.
pub type Row = Model<Seq<char>>;

impl View for Model {
    type V = Row;

    open spec fn view(&self) -> Row {
        Model {
            id: self.id,
            insight_tenant_id: self.insight_tenant_id,
            clickhouse_table: self.clickhouse_table@,
            field_name: self.field_name@,
            field_description: opt_text(self.field_description),
        }
    }
}

/// The rows of a list.
pub open spec fn rows(models: Seq<Model>) -> Seq<Row> {
    models.map_values(|m: Model| m@)
}

} // verus!
