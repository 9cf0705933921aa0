//! The private API: account and trading operations, which are signed.

pub mod api;
pub mod auth;
