//! The tables of the database, row by row.
//!
//! A row type has its text columns of type `S`: `String` in running code, and
//! `Seq<char>` in the view of such a row.

pub mod active_value;
pub mod metrics;
pub mod table_columns;
pub mod thresholds;
