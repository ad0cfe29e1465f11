//! Verified core of a vault-based market maker: deposit matching, liquidity
//! share accounting, vault lifecycle and quote refreshing.

pub mod errors;
pub mod instructions;
pub mod laws;
pub mod state;
pub mod utils;
