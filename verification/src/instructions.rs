//! The four operations, each on the records it is handed.

pub mod create_vault;
pub mod initialize;
pub mod rotate_keys;
pub mod sign_transaction;
