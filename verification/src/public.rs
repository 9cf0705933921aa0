//! The public API: market data, which needs no credentials.

pub mod api;
