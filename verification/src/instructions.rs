//! The three requests that the engine serves, each with the accounts it needs.

pub mod cancel_order;
pub mod place_order;
pub mod resolve_order;
