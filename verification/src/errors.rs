use vstd::prelude::*;

verus! {

/// Errors that the market maker's instructions report.
#[derive(Debug, Clone, Copy, PartialEq, Eq, Structural)]
pub enum RootError {
    PhoenixHeaderError,
    InvalidPhoenixProgram,
    PhoenixMarketError,
    PhoenixVaultSeatRetired,
    VaultFundsNotEmpty,
    DepositWithdrawDuringUptime,
    RefreshQuotesDuringDowntime,
    DepositRatioCheckFail,
}

} // verus!
