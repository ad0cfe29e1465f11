//! The market maker's instructions, each as a function from the accounts it
//! reads to the accounts it writes and the transfers it asks for.

pub mod funds_manager;
pub mod order_manager;
pub mod vault_manager;
