//! Content store for routed pages ("views"): validation of new views,
//! collision-free route assignment, the single-homepage rule and
//! visibility-scoped lookups, all with machine-checked contracts.

pub mod errors;
pub mod schema;
pub mod route;
pub mod store;
pub mod guarantees;
pub mod components;
