//! What the ledger keeps for each order.

pub mod layout;
pub mod order;
