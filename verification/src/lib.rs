//! The logic of an analytics API: metrics, their thresholds, table columns and queries,
//! each within one tenant.
//!
//! `handlers` says how each request begins and how it goes on from reply to reply;
//! `laws` says what holds of the API as a whole.

pub mod auth;
pub mod domain;
pub mod entities;
pub mod handlers;
pub mod ids;
pub mod json;
pub mod laws;
pub mod levels;
pub mod mappers;
pub mod pending;
pub mod protocol;
pub mod response;
pub mod sql;
pub mod store;
pub mod text;
pub mod time;
