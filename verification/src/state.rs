use vstd::prelude::*;

verus! {

/// A 32-byte account address.
pub type Pubkey = [u8; 32];

/// The shared vault of one market: who owns it, which token accounts hold its
/// funds, how many liquidity shares are outstanding and when its next
/// downtime window (the period in which quoting pauses) falls.
#[derive(Debug, Clone, Copy)]
pub struct UnifiedVault {
    pub bump: u8,
    pub owner: Pubkey,
    pub vault_identifier: Pubkey,
    pub market_identifier: Pubkey,
    pub trade_manager: Pubkey,
    pub base_token_mint: Pubkey,
    pub quote_token_mint: Pubkey,
    pub base_token_vault_ac: Pubkey,
    pub quote_token_vault_ac: Pubkey,
    pub base_token_balance: u64,
    pub quote_token_balance: u64,
    pub base_token_total_liquidity_shares: u64,
    pub quote_token_total_liquidity_shares: u64,
    pub downtime_start_timestamp: u64,
    pub downtime_end_timestamp: u64,
    pub cycle_duration_in_seconds: u64,
    pub downtime_in_seconds: u64,
    pub last_update_slot: u64,
}

impl UnifiedVault {
    /// Space an encoded vault account takes, discriminator included.
    pub const LEN: usize = 8 + (1 * 1) + (8 * 36) + (7 * 8);
}

/// One depositor's claim on a vault, in liquidity shares of each token.
#[derive(Debug, Clone, Copy)]
pub struct DepositReceipt {
    pub bump: u8,
    pub owner: Pubkey,
    pub vault: Pubkey,
    pub base_token_liquidity_shares: u64,
    pub quote_token_liquidity_shares: u64,
}

impl DepositReceipt {
    /// Space an encoded receipt account takes, discriminator included.
    pub const LEN: usize = 8 + (2 * 36) + (2 * 8);
}

/// The cluster clock as the instructions read it.
#[derive(Debug, Clone, Copy)]
pub struct Clock {
    pub slot: u64,
    pub unix_timestamp: i64,
}

impl Clock {
    /// The clock's time as the unsigned timestamp the vault stores
    /// (a negative time wraps, as an `as` cast does).
    pub open spec fn timestamp(self) -> u64 {
        self.unix_timestamp as u64
    }

    /// The clock's time as the unsigned timestamp the vault stores.
    pub fn current_timestamp(&self) -> (t: u64)
        ensures
            t == self.timestamp(),
    {
        self.unix_timestamp as u64
    }
}


/// The stored timestamp is the clock's time itself when that time is not
/// negative, and wraps by 2^64 when it is.
pub proof fn lemma_timestamp_rule(clock: Clock)
    ensures
        clock.unix_timestamp >= 0 ==> clock.timestamp() == clock.unix_timestamp,
        clock.unix_timestamp < 0 ==> clock.timestamp() == clock.unix_timestamp
            + 0x1_0000_0000_0000_0000,
{
    let t = clock.unix_timestamp;
    assert(t >= 0 ==> (t as u64) == t) by (bit_vector);
    assert(t < 0 ==> (t as u64) == t + 0x1_0000_0000_0000_0000) by (bit_vector);
}

} // verus!
