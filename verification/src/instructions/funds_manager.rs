use vstd::prelude::*;
use vstd::arithmetic::div_mod::*;
use vstd::arithmetic::mul::*;

use crate::state::{DepositReceipt, Pubkey, UnifiedVault};
use crate::utils::{match_deposit_ratios, matched_deposits, matching_fits, matching_fits_u64};

verus! {

/// Which of the vault's two tokens a transfer moves.
#[derive(Debug, Clone, Copy, PartialEq, Eq, Structural)]
pub enum TokenKind {
    Base,
    Quote,
}

/// One token transfer between a depositor's token account and the vault's.
#[derive(Debug, Clone, Copy, PartialEq, Eq, Structural)]
pub struct TokenTransfer {
    pub token: TokenKind,
    pub amount: u64,
}

/// The transfers that move `base` and `quote` tokens: one per token whose
/// amount is not zero, base first.
pub open spec fn nonzero_transfers(base: u64, quote: u64) -> Seq<TokenTransfer> {
    let b: Seq<TokenTransfer> = if base > 0 {
        seq![TokenTransfer { token: TokenKind::Base, amount: base }]
    } else {
        seq![]
    };
    let q: Seq<TokenTransfer> = if quote > 0 {
        seq![TokenTransfer { token: TokenKind::Quote, amount: quote }]
    } else {
        seq![]
    };
    b + q
}

fn transfers_of(base: u64, quote: u64) -> (t: Vec<TokenTransfer>)
    ensures
        t@ == nonzero_transfers(base, quote),
{
    let mut t: Vec<TokenTransfer> = Vec::new();
    if base > 0 {
        t.push(TokenTransfer { token: TokenKind::Base, amount: base });
    }
    if quote > 0 {
        t.push(TokenTransfer { token: TokenKind::Quote, amount: quote });
    }
    t
}

/// The accounts a deposit reads and writes, as plain values.
#[derive(Debug, Clone, Copy)]
pub struct DepositFunds {
    /// The depositor.
    pub owner: Pubkey,
    /// Address of the vault account.
    pub vault_key: Pubkey,
    pub vault: UnifiedVault,
    /// The depositor's receipt, written afresh by the deposit.
    pub deposit_receipt: DepositReceipt,
    /// Bump seed of the receipt's address.
    pub deposit_receipt_bump: u8,
    /// Tokens held by the vault's base token account.
    pub base_token_vault_amount: u64,
    /// Tokens held by the vault's quote token account.
    pub quote_token_vault_amount: u64,
}

/// Amounts a deposit takes from the user: the ratio-matched amounts, or
/// nothing at all when matching refuses the deposit.
pub open spec fn accepted_deposits(vb: u64, vq: u64, user_base: u64, user_quote: u64) -> (u64, u64) {
    match matched_deposits(vb, vq, user_base, user_quote) {
        Ok(p) => p,
        Err(_) => (0, 0),
    }
}

/// Liquidity shares minted for `new_deposit` tokens: one per token while the
/// vault holds no tokens or no shares of that kind, otherwise the deposit's
/// part of the vault's tokens times the shares outstanding, rounded down
/// (and cut to 64 bits).
pub open spec fn minted_shares(new_deposit: u64, total_shares: u64, vault_amount: u64) -> u64 {
    if vault_amount == 0 || total_shares == 0 {
        new_deposit
    } else {
        ((new_deposit as nat * total_shares as nat) / vault_amount as nat) as u64
    }
}

fn mint_liquidity_shares(new_deposit: u64, total_shares: u64, vault_amount: u64) -> (s: u64)
    ensures
        s == minted_shares(new_deposit, total_shares, vault_amount),
{
    if vault_amount == 0 || total_shares == 0 {
        new_deposit
    } else {
        proof {
            lemma_mul_upper_bound(
                new_deposit as int,
                u64::MAX as int,
                total_shares as int,
                u64::MAX as int,
            );
        }
        let product: u128 = (new_deposit as u128) * (total_shares as u128);
        #[verifier::truncate]
        ((product / (vault_amount as u128)) as u64)
    }
}

/// The shares a deposit mints for each token.
pub open spec fn deposit_minted_shares(ctx: DepositFunds, base_token_amount: u64, quote_token_amount: u64) -> (u64, u64) {
    let accepted = accepted_deposits(
        ctx.base_token_vault_amount,
        ctx.quote_token_vault_amount,
        base_token_amount,
        quote_token_amount,
    );
    (
        minted_shares(
            accepted.0,
            ctx.vault.base_token_total_liquidity_shares,
            ctx.base_token_vault_amount,
        ),
        minted_shares(
            accepted.1,
            ctx.vault.quote_token_total_liquidity_shares,
            ctx.quote_token_vault_amount,
        ),
    )
}

/// The deposit's arithmetic stays within 64 bits.
pub open spec fn deposit_fits_u64(ctx: DepositFunds, base_token_amount: u64, quote_token_amount: u64) -> bool {
    let minted = deposit_minted_shares(ctx, base_token_amount, quote_token_amount);
    &&& matching_fits_u64(
        ctx.base_token_vault_amount,
        ctx.quote_token_vault_amount,
        base_token_amount,
        quote_token_amount,
    )
    &&& ctx.vault.base_token_total_liquidity_shares + minted.0 <= u64::MAX
    &&& ctx.vault.quote_token_total_liquidity_shares + minted.1 <= u64::MAX
}

/// Whether `deposit_funds` can run on these accounts and amounts without
/// leaving 64 bits (its precondition).
pub fn deposit_fits(ctx: &DepositFunds, base_token_amount: u64, quote_token_amount: u64) -> (fits: bool)
    ensures
        fits == deposit_fits_u64(*ctx, base_token_amount, quote_token_amount),
{
    if !matching_fits(
        ctx.base_token_vault_amount,
        ctx.quote_token_vault_amount,
        base_token_amount,
        quote_token_amount,
    ) {
        return false;
    }
    let (base_new_deposits, quote_new_deposits) = match match_deposit_ratios(
        ctx.base_token_vault_amount,
        ctx.quote_token_vault_amount,
        base_token_amount,
        quote_token_amount,
    ) {
        Ok(p) => p,
        Err(_) => (0, 0),
    };
    let base_minted = mint_liquidity_shares(
        base_new_deposits,
        ctx.vault.base_token_total_liquidity_shares,
        ctx.base_token_vault_amount,
    );
    let quote_minted = mint_liquidity_shares(
        quote_new_deposits,
        ctx.vault.quote_token_total_liquidity_shares,
        ctx.quote_token_vault_amount,
    );
    base_minted <= u64::MAX - ctx.vault.base_token_total_liquidity_shares && quote_minted
        <= u64::MAX - ctx.vault.quote_token_total_liquidity_shares
}

/// The receipt a deposit writes: the depositor, the vault and the shares
/// minted for the accepted amounts.
pub open spec fn deposited_receipt(ctx: DepositFunds, base_token_amount: u64, quote_token_amount: u64) -> DepositReceipt {
    let minted = deposit_minted_shares(ctx, base_token_amount, quote_token_amount);
    DepositReceipt {
        bump: ctx.deposit_receipt_bump,
        owner: ctx.owner,
        vault: ctx.vault_key,
        base_token_liquidity_shares: minted.0,
        quote_token_liquidity_shares: minted.1,
    }
}

/// The vault after a deposit: its share totals grow by the minted shares.
pub open spec fn deposited_vault(ctx: DepositFunds, base_token_amount: u64, quote_token_amount: u64) -> UnifiedVault {
    let minted = deposit_minted_shares(ctx, base_token_amount, quote_token_amount);
    UnifiedVault {
        base_token_total_liquidity_shares: (ctx.vault.base_token_total_liquidity_shares
            + minted.0) as u64,
        quote_token_total_liquidity_shares: (ctx.vault.quote_token_total_liquidity_shares
            + minted.1) as u64,
        ..ctx.vault
    }
}

/// Deposits up to `base_token_amount` and `quote_token_amount` into the vault.
/// The amounts are matched to the vault's current token ratio (a refused match
/// deposits nothing); the depositor's receipt is written afresh holding the
/// shares minted for the accepted amounts, the vault's share totals grow by
/// the same shares, and the accepted amounts are to be transferred from the
/// depositor to the vault.
pub fn deposit_funds(ctx: &mut DepositFunds, base_token_amount: u64, quote_token_amount: u64) -> (transfers: Vec<TokenTransfer>)
    requires
        deposit_fits_u64(*old(ctx), base_token_amount, quote_token_amount),
    ensures
        final(ctx).deposit_receipt == deposited_receipt(
            *old(ctx),
            base_token_amount,
            quote_token_amount,
        ),
        final(ctx).vault == deposited_vault(*old(ctx), base_token_amount, quote_token_amount),
        transfers@ == ({
            let accepted = accepted_deposits(
                old(ctx).base_token_vault_amount,
                old(ctx).quote_token_vault_amount,
                base_token_amount,
                quote_token_amount,
            );
            nonzero_transfers(accepted.0, accepted.1)
        }),
        final(ctx).owner == old(ctx).owner,
        final(ctx).vault_key == old(ctx).vault_key,
        final(ctx).deposit_receipt_bump == old(ctx).deposit_receipt_bump,
        final(ctx).base_token_vault_amount == old(ctx).base_token_vault_amount,
        final(ctx).quote_token_vault_amount == old(ctx).quote_token_vault_amount,
{
    ctx.deposit_receipt = DepositReceipt {
        bump: ctx.deposit_receipt_bump,
        owner: ctx.owner,
        vault: ctx.vault_key,
        base_token_liquidity_shares: 0u64,
        quote_token_liquidity_shares: 0u64,
    };

    let (base_new_deposits, quote_new_deposits) = match match_deposit_ratios(
        ctx.base_token_vault_amount,
        ctx.quote_token_vault_amount,
        base_token_amount,
        quote_token_amount,
    ) {
        Ok((adjusted_base_deposits, adjusted_quote_deposits)) => {
            (adjusted_base_deposits, adjusted_quote_deposits)
        },
        Err(_) => (0, 0),
    };

    let fresh_base_liquidity_shares = mint_liquidity_shares(
        base_new_deposits,
        ctx.vault.base_token_total_liquidity_shares,
        ctx.base_token_vault_amount,
    );
    ctx.vault.base_token_total_liquidity_shares = ctx.vault.base_token_total_liquidity_shares
        + fresh_base_liquidity_shares;
    ctx.deposit_receipt.base_token_liquidity_shares = ctx.deposit_receipt.base_token_liquidity_shares
        + fresh_base_liquidity_shares;

    let fresh_quote_liquidity_shares = mint_liquidity_shares(
        quote_new_deposits,
        ctx.vault.quote_token_total_liquidity_shares,
        ctx.quote_token_vault_amount,
    );
    ctx.vault.quote_token_total_liquidity_shares = ctx.vault.quote_token_total_liquidity_shares
        + fresh_quote_liquidity_shares;
    ctx.deposit_receipt.quote_token_liquidity_shares = ctx.deposit_receipt.quote_token_liquidity_shares
        + fresh_quote_liquidity_shares;

    transfers_of(base_new_deposits, quote_new_deposits)
}


/// The accounts a withdrawal reads and writes, as plain values.
#[derive(Debug, Clone, Copy)]
pub struct WithdrawAllFunds {
    pub vault: UnifiedVault,
    /// The withdrawing depositor's receipt; it is closed after the withdrawal.
    pub deposit_receipt: DepositReceipt,
    /// Tokens held by the vault's base token account.
    pub base_token_vault_amount: u64,
    /// Tokens held by the vault's quote token account.
    pub quote_token_vault_amount: u64,
}

/// Tokens that `shares` of `total_shares` liquidity shares redeem from a
/// vault token account holding `vault_amount` tokens, rounded down.
pub open spec fn redeemed_tokens(shares: u64, vault_amount: u64, total_shares: u64) -> nat {
    (shares as nat * vault_amount as nat) / total_shares as nat
}

/// The receipt's shares are part of the vault's outstanding shares of each
/// token, and shares of each token are outstanding.
pub open spec fn receipt_within_vault(ctx: WithdrawAllFunds) -> bool {
    &&& 0 < ctx.vault.base_token_total_liquidity_shares
    &&& 0 < ctx.vault.quote_token_total_liquidity_shares
    &&& ctx.deposit_receipt.base_token_liquidity_shares
        <= ctx.vault.base_token_total_liquidity_shares
    &&& ctx.deposit_receipt.quote_token_liquidity_shares
        <= ctx.vault.quote_token_total_liquidity_shares
}

pub(crate) proof fn lemma_redeemed_at_most_vault(shares: u64, vault_amount: u64, total_shares: u64)
    requires
        0 < total_shares,
        shares <= total_shares,
    ensures
        redeemed_tokens(shares, vault_amount, total_shares) <= vault_amount,
{
    lemma_mul_inequality(shares as int, total_shares as int, vault_amount as int);
    lemma_div_is_ordered(
        (shares * vault_amount) as int,
        (total_shares * vault_amount) as int,
        total_shares as int,
    );
    lemma_mul_is_commutative(total_shares as int, vault_amount as int);
    lemma_div_multiples_vanish(vault_amount as int, total_shares as int);
}

/// Whether `withdraw_all_funds` can run on these accounts (its precondition).
pub fn receipt_withdrawable(ctx: &WithdrawAllFunds) -> (ok: bool)
    ensures
        ok == receipt_within_vault(*ctx),
{
    0 < ctx.vault.base_token_total_liquidity_shares && 0
        < ctx.vault.quote_token_total_liquidity_shares
        && ctx.deposit_receipt.base_token_liquidity_shares
        <= ctx.vault.base_token_total_liquidity_shares
        && ctx.deposit_receipt.quote_token_liquidity_shares
        <= ctx.vault.quote_token_total_liquidity_shares
}

fn redeem_liquidity_shares(shares: u64, vault_amount: u64, total_shares: u64) -> (t: u64)
    requires
        0 < total_shares,
        shares <= total_shares,
    ensures
        t == redeemed_tokens(shares, vault_amount, total_shares),
{
    proof {
        lemma_mul_upper_bound(shares as int, u64::MAX as int, vault_amount as int, u64::MAX as int);
        lemma_redeemed_at_most_vault(shares, vault_amount, total_shares);
    }
    let product: u128 = (shares as u128) * (vault_amount as u128);
    (product / (total_shares as u128)) as u64
}

/// The vault after a withdrawal: its share totals shrink by the receipt's shares.
pub open spec fn withdrawn_vault(ctx: WithdrawAllFunds) -> UnifiedVault {
    UnifiedVault {
        base_token_total_liquidity_shares: (ctx.vault.base_token_total_liquidity_shares
            - ctx.deposit_receipt.base_token_liquidity_shares) as u64,
        quote_token_total_liquidity_shares: (ctx.vault.quote_token_total_liquidity_shares
            - ctx.deposit_receipt.quote_token_liquidity_shares) as u64,
        ..ctx.vault
    }
}

/// What a withdrawal pays out of each token.
pub open spec fn withdraw_payouts(ctx: WithdrawAllFunds) -> (u64, u64) {
    (
        redeemed_tokens(
            ctx.deposit_receipt.base_token_liquidity_shares,
            ctx.base_token_vault_amount,
            ctx.vault.base_token_total_liquidity_shares,
        ) as u64,
        redeemed_tokens(
            ctx.deposit_receipt.quote_token_liquidity_shares,
            ctx.quote_token_vault_amount,
            ctx.vault.quote_token_total_liquidity_shares,
        ) as u64,
    )
}

/// Withdraws everything a depositor's receipt holds: each token's payout is
/// the receipt's part of the vault's outstanding shares applied to the
/// vault's tokens, rounded down; the vault's share totals shrink by the
/// receipt's shares, and the payouts are to be transferred from the vault to
/// the depositor.
pub fn withdraw_all_funds(ctx: &mut WithdrawAllFunds) -> (transfers: Vec<TokenTransfer>)
    requires
        receipt_within_vault(*old(ctx)),
    ensures
        final(ctx).vault == withdrawn_vault(*old(ctx)),
        final(ctx).deposit_receipt == old(ctx).deposit_receipt,
        final(ctx).base_token_vault_amount == old(ctx).base_token_vault_amount,
        final(ctx).quote_token_vault_amount == old(ctx).quote_token_vault_amount,
        transfers@ == nonzero_transfers(withdraw_payouts(*old(ctx)).0, withdraw_payouts(*old(ctx)).1),
{
    let base_token_balance_deduction = redeem_liquidity_shares(
        ctx.deposit_receipt.base_token_liquidity_shares,
        ctx.base_token_vault_amount,
        ctx.vault.base_token_total_liquidity_shares,
    );
    let quote_token_balance_deduction = redeem_liquidity_shares(
        ctx.deposit_receipt.quote_token_liquidity_shares,
        ctx.quote_token_vault_amount,
        ctx.vault.quote_token_total_liquidity_shares,
    );

    ctx.vault.base_token_total_liquidity_shares = ctx.vault.base_token_total_liquidity_shares
        - ctx.deposit_receipt.base_token_liquidity_shares;
    ctx.vault.quote_token_total_liquidity_shares = ctx.vault.quote_token_total_liquidity_shares
        - ctx.deposit_receipt.quote_token_liquidity_shares;

    transfers_of(base_token_balance_deduction, quote_token_balance_deduction)
}

} // verus!
