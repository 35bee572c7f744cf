//! What a statement says of one column of the row that it writes.

use vstd::prelude::*;

verus! {

/// One column of a row to be written.
#[derive(Debug, PartialEq, Eq)]
pub enum ActiveValue<T> {
    /// The column is written.
    Assigned(T),
    /// The column holds this value and is left alone by an update.
    Unchanged(T),
    /// The statement says nothing of the column.
    NotSet,
}

impl<T> ActiveValue<T> {
    /// What the column holds after an update of a row in which it held `before`.
    pub open spec fn over(self, before: T) -> T {
        match self {
            ActiveValue::Assigned(value) => value,
            _ => before,
        }
    }
}

/// The text that a column is written with.
pub open spec fn active_text(value: ActiveValue<String>) -> ActiveValue<Seq<char>> {
    match value {
        ActiveValue::Assigned(text) => ActiveValue::Assigned(text@),
        ActiveValue::Unchanged(text) => ActiveValue::Unchanged(text@),
        ActiveValue::NotSet => ActiveValue::NotSet,
    }
}

/// The optional text that a column is written with.
pub open spec fn active_opt_text(value: ActiveValue<Option<String>>) -> ActiveValue<
    Option<Seq<char>>,
> {
    match value {
        ActiveValue::Assigned(text) => ActiveValue::Assigned(crate::text::opt_text(text)),
        ActiveValue::Unchanged(text) => ActiveValue::Unchanged(crate::text::opt_text(text)),
        ActiveValue::NotSet => ActiveValue::NotSet,
    }
}

} // verus!
