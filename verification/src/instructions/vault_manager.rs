use vstd::prelude::*;

use crate::errors::RootError;
use crate::state::{Clock, Pubkey, UnifiedVault};

verus! {

/// The addresses a new vault records, as plain values.
#[derive(Debug, Clone, Copy)]
pub struct InitializeVault {
    pub owner: Pubkey,
    pub market_identifier: Pubkey,
    pub vault_identifier: Pubkey,
    /// Bump seed of the vault's address.
    pub vault_bump: u8,
    pub trade_manager: Pubkey,
    pub base_token_mint: Pubkey,
    pub quote_token_mint: Pubkey,
    pub base_token_vault_ac: Pubkey,
    pub quote_token_vault_ac: Pubkey,
}

/// The vault that `initialize_vault` writes.
pub open spec fn initialized_vault(
    ctx: InitializeVault,
    clock: Clock,
    cycle_duration_in_seconds: u64,
    downtime_in_seconds: u64,
) -> UnifiedVault {
    UnifiedVault {
        bump: ctx.vault_bump,
        owner: ctx.owner,
        market_identifier: ctx.market_identifier,
        vault_identifier: ctx.vault_identifier,
        trade_manager: ctx.trade_manager,
        base_token_mint: ctx.base_token_mint,
        quote_token_mint: ctx.quote_token_mint,
        base_token_vault_ac: ctx.base_token_vault_ac,
        quote_token_vault_ac: ctx.quote_token_vault_ac,
        base_token_balance: 0,
        quote_token_balance: 0,
        base_token_total_liquidity_shares: 0,
        quote_token_total_liquidity_shares: 0,
        downtime_start_timestamp: clock.timestamp(),
        downtime_end_timestamp: (clock.timestamp() + downtime_in_seconds) as u64,
        cycle_duration_in_seconds,
        downtime_in_seconds,
        last_update_slot: clock.slot,
    }
}

/// Whether `initialize_vault` can open a first downtime window of
/// `downtime_in_seconds` at `clock` within 64-bit timestamps (its precondition).
pub fn initialize_fits(clock: &Clock, downtime_in_seconds: u64) -> (fits: bool)
    ensures
        fits == (clock.timestamp() + downtime_in_seconds <= u64::MAX),
{
    downtime_in_seconds <= u64::MAX - clock.current_timestamp()
}

/// Creates a vault with no funds and no shares whose first downtime window
/// opens now and lasts `downtime_in_seconds`.
pub fn initialize_vault(
    ctx: &InitializeVault,
    clock: &Clock,
    cycle_duration_in_seconds: u64,
    downtime_in_seconds: u64,
) -> (vault: UnifiedVault)
    requires
        clock.timestamp() + downtime_in_seconds <= u64::MAX,
    ensures
        vault == initialized_vault(*ctx, *clock, cycle_duration_in_seconds, downtime_in_seconds),
{
    let current_timestamp = clock.current_timestamp();
    UnifiedVault {
        bump: ctx.vault_bump,
        owner: ctx.owner,
        market_identifier: ctx.market_identifier,
        vault_identifier: ctx.vault_identifier,
        trade_manager: ctx.trade_manager,
        base_token_mint: ctx.base_token_mint,
        quote_token_mint: ctx.quote_token_mint,
        base_token_vault_ac: ctx.base_token_vault_ac,
        quote_token_vault_ac: ctx.quote_token_vault_ac,
        base_token_balance: 0u64,
        quote_token_balance: 0u64,
        base_token_total_liquidity_shares: 0u64,
        quote_token_total_liquidity_shares: 0u64,
        downtime_start_timestamp: current_timestamp,
        downtime_end_timestamp: current_timestamp + downtime_in_seconds,
        cycle_duration_in_seconds,
        downtime_in_seconds,
        last_update_slot: clock.slot,
    }
}

/// The accounts closing a vault reads, as plain values.
#[derive(Debug, Clone, Copy)]
pub struct CloseVault {
    pub vault: UnifiedVault,
    /// Lamports held by the vault's trade manager account.
    pub trade_manager_lamports: u64,
}

/// The vault records no token balance and no outstanding share of either token.
pub open spec fn vault_funds_empty(vault: UnifiedVault) -> bool {
    &&& vault.base_token_balance == 0
    &&& vault.base_token_total_liquidity_shares == 0
    &&& vault.quote_token_balance == 0
    &&& vault.quote_token_total_liquidity_shares == 0
}

/// Closes a vault: refused with `VaultFundsNotEmpty` unless the vault records
/// no balance and no shares of either token; otherwise all the trade
/// manager's lamports are to go back to the owner, and the result is that
/// amount.
pub fn close_vault(ctx: &CloseVault) -> (r: Result<u64, RootError>)
    ensures
        r == (if vault_funds_empty(ctx.vault) {
            Ok::<u64, RootError>(ctx.trade_manager_lamports)
        } else {
            Err::<u64, RootError>(RootError::VaultFundsNotEmpty)
        }),
{
    let vault = &ctx.vault;
    if !(vault.base_token_balance == 0 && vault.base_token_total_liquidity_shares == 0) {
        return Err(RootError::VaultFundsNotEmpty);
    }
    if !(vault.quote_token_balance == 0 && vault.quote_token_total_liquidity_shares == 0) {
        return Err(RootError::VaultFundsNotEmpty);
    }
    Ok(ctx.trade_manager_lamports)
}

} // verus!
