//! What holds of the API as a whole.

pub mod answers;
pub mod conversations;
pub mod ids;
pub mod lifecycle;
pub mod outcomes;
pub mod progress;
pub mod queries;
pub mod requests;
pub mod rows;
pub mod severity;
pub mod tenancy;
pub mod validity;
pub mod views;
