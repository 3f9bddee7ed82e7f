//! Multi-tenant embedded database host: the decisions behind the catalog,
//! the tenant engine, the pairing authorization and the shared process state.

pub mod api;
pub mod database;
pub mod discovery;
pub mod error;
pub mod ids;
pub mod query;
pub mod state;
pub mod text;
