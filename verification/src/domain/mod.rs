//! What the API takes in and gives out.

pub mod metric;
pub mod query;
pub mod threshold;
