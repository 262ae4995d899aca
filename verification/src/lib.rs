//! Subscription and billing management: a plan catalog, the per-user
//! subscription record and its lifecycle, an invoice ledger, quota
//! derivation, and the client-side cache that mirrors them.

pub mod errors;
pub mod auth;
pub mod text;
pub mod plans;
pub mod models;
pub mod model;
pub mod invariants;
pub mod requests;
pub mod rules;
pub mod store;
pub mod ambient;
pub mod handlers;
pub mod laws;
pub mod client;
