//! The client's side of billing: the plans as the client presents them,
//! the invoices as it lists them, and the cache that mirrors the server.

pub mod plan;
pub mod invoice;
pub mod state;
pub mod api;
