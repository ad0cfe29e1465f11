//! Properties that relate the instructions to one another.

use vstd::prelude::*;
use vstd::arithmetic::div_mod::*;
use vstd::arithmetic::mul::lemma_mul_basics;

use crate::instructions::funds_manager::{
    accepted_deposits, deposit_fits_u64, deposit_minted_shares, deposited_receipt,
    deposited_vault, lemma_redeemed_at_most_vault, minted_shares, receipt_within_vault,
    nonzero_transfers, redeemed_tokens, withdraw_payouts, withdrawn_vault, DepositFunds,
    TokenKind, TokenTransfer, WithdrawAllFunds,
};
use crate::instructions::order_manager::{
    refresh_actions, refreshed_vault, refresh_fits_u64, OrderAction, CANCEL_ALL_ORDERS_LIMIT,
};
use crate::instructions::vault_manager::{initialized_vault, vault_funds_empty, InitializeVault};
use crate::state::{Clock, DepositReceipt, UnifiedVault};
use crate::errors::RootError;
use crate::utils::{lemma_matched_deposits_within_limits, matched_deposits};

verus! {

/// A deposit never takes more of either token than the depositor offered.
pub proof fn lemma_deposit_takes_at_most_offer(
    ctx: DepositFunds,
    base_token_amount: u64,
    quote_token_amount: u64,
)
    ensures
        accepted_deposits(
            ctx.base_token_vault_amount,
            ctx.quote_token_vault_amount,
            base_token_amount,
            quote_token_amount,
        ).0 <= base_token_amount,
        accepted_deposits(
            ctx.base_token_vault_amount,
            ctx.quote_token_vault_amount,
            base_token_amount,
            quote_token_amount,
        ).1 <= quote_token_amount,
{
    lemma_matched_deposits_within_limits(
        ctx.base_token_vault_amount,
        ctx.quote_token_vault_amount,
        base_token_amount,
        quote_token_amount,
    );
}

/// The receipt a deposit writes lies within the vault's outstanding shares
/// after the deposit (so it can be withdrawn whenever shares of both tokens
/// were minted or outstanding), and withdrawing it brings the vault's share
/// totals back to what they were before the deposit.
pub proof fn lemma_withdraw_undoes_deposit_shares(
    ctx: DepositFunds,
    base_token_amount: u64,
    quote_token_amount: u64,
)
    ensures
        ({
            let minted = deposit_minted_shares(ctx, base_token_amount, quote_token_amount);
            let base_total = ctx.vault.base_token_total_liquidity_shares + minted.0;
            let quote_total = ctx.vault.quote_token_total_liquidity_shares + minted.1;
            &&& minted.0 <= base_total
            &&& minted.1 <= quote_total
            &&& base_total - minted.0 == ctx.vault.base_token_total_liquidity_shares
            &&& quote_total - minted.1 == ctx.vault.quote_token_total_liquidity_shares
        }),
{
}

/// The first depositor into an empty vault (no tokens, no shares) who offers
/// some of both tokens gets one share per token deposited, and withdrawing
/// that receipt while the vault holds exactly the deposit pays the deposit
/// back in full.
pub proof fn lemma_sole_depositor_round_trip(
    ctx: DepositFunds,
    base_token_amount: u64,
    quote_token_amount: u64,
)
    requires
        ctx.base_token_vault_amount == 0,
        ctx.quote_token_vault_amount == 0,
        ctx.vault.base_token_total_liquidity_shares == 0,
        ctx.vault.quote_token_total_liquidity_shares == 0,
        base_token_amount > 0,
        quote_token_amount > 0,
    ensures
        accepted_deposits(0, 0, base_token_amount, quote_token_amount) == (
            base_token_amount,
            quote_token_amount,
        ),
        deposit_minted_shares(ctx, base_token_amount, quote_token_amount) == (
            base_token_amount,
            quote_token_amount,
        ),
        redeemed_tokens(base_token_amount, base_token_amount, base_token_amount)
            == base_token_amount,
        redeemed_tokens(quote_token_amount, quote_token_amount, quote_token_amount)
            == quote_token_amount,
{
    lemma_div_multiples_vanish(base_token_amount as int, base_token_amount as int);
    lemma_div_multiples_vanish(quote_token_amount as int, quote_token_amount as int);
}

/// A withdrawal never pays out more of a token than the vault's token
/// account holds.
pub proof fn lemma_withdraw_within_vault_tokens(ctx: WithdrawAllFunds)
    requires
        receipt_within_vault(ctx),
    ensures
        redeemed_tokens(
            ctx.deposit_receipt.base_token_liquidity_shares,
            ctx.base_token_vault_amount,
            ctx.vault.base_token_total_liquidity_shares,
        ) <= ctx.base_token_vault_amount,
        redeemed_tokens(
            ctx.deposit_receipt.quote_token_liquidity_shares,
            ctx.quote_token_vault_amount,
            ctx.vault.quote_token_total_liquidity_shares,
        ) <= ctx.quote_token_vault_amount,
{
    lemma_redeemed_at_most_vault(
        ctx.deposit_receipt.base_token_liquidity_shares,
        ctx.base_token_vault_amount,
        ctx.vault.base_token_total_liquidity_shares,
    );
    lemma_redeemed_at_most_vault(
        ctx.deposit_receipt.quote_token_liquidity_shares,
        ctx.quote_token_vault_amount,
        ctx.vault.quote_token_total_liquidity_shares,
    );
}

/// Share arithmetic rounds in the vault's favour: a deposit into a funded
/// vault mints at most the deposit's exact part of the outstanding shares
/// (when that part fits in 64 bits), and a withdrawal pays at most the
/// receipt's exact part of the vault's tokens.
pub proof fn lemma_share_rounding_favours_vault(
    new_deposit: u64,
    total_shares: u64,
    vault_amount: u64,
    shares: u64,
)
    ensures
        (vault_amount > 0 && total_shares > 0 && (new_deposit * total_shares) / (
        vault_amount as int) <= u64::MAX) ==> {
            &&& minted_shares(new_deposit, total_shares, vault_amount) * vault_amount
                <= new_deposit * total_shares
            &&& new_deposit * total_shares < (minted_shares(
                new_deposit,
                total_shares,
                vault_amount,
            ) + 1) * vault_amount
        },
        total_shares > 0 ==> redeemed_tokens(shares, vault_amount, total_shares) * total_shares
            <= shares * vault_amount,
{
    if vault_amount > 0 && total_shares > 0 {
        let p = new_deposit * total_shares;
        lemma_fundamental_div_mod(p as int, vault_amount as int);
        lemma_mod_pos_bound(p as int, vault_amount as int);
        let q = p / (vault_amount as int);
        if q <= u64::MAX {
            assert(minted_shares(new_deposit, total_shares, vault_amount) == q);
            assert(q * vault_amount <= p && p < (q + 1) * vault_amount) by (nonlinear_arith)
                requires
                    p == vault_amount * q + p % (vault_amount as int),
                    0 <= p % (vault_amount as int) < vault_amount,
            ;
        }
    }
    if total_shares > 0 {
        let p = shares * vault_amount;
        lemma_fundamental_div_mod(p as int, total_shares as int);
        lemma_mod_pos_bound(p as int, total_shares as int);
        let q = p / (total_shares as int);
        assert(q * total_shares <= p) by (nonlinear_arith)
            requires
                p == total_shares * q + p % (total_shares as int),
                0 <= p % (total_shares as int),
        ;
    }
}

/// A vault that was just initialized can be closed.
pub proof fn lemma_new_vault_can_close(
    ctx: InitializeVault,
    clock: Clock,
    cycle_duration_in_seconds: u64,
    downtime_in_seconds: u64,
)
    ensures
        vault_funds_empty(
            initialized_vault(ctx, clock, cycle_duration_in_seconds, downtime_in_seconds),
        ),
{
}

/// The vault's downtime window lasts exactly its configured downtime.
pub open spec fn downtime_window_consistent(vault: UnifiedVault) -> bool {
    vault.downtime_end_timestamp == vault.downtime_start_timestamp + vault.downtime_in_seconds
}

/// Initializing a vault opens a downtime window of the configured length,
/// and every refresh keeps the window at that length and leaves the cycle
/// and downtime durations, the funds and the shares untouched.
pub proof fn lemma_downtime_window_length_kept(
    ctx: InitializeVault,
    vault: UnifiedVault,
    clock: Clock,
    cycle_duration_in_seconds: u64,
    downtime_in_seconds: u64,
)
    requires
        clock.timestamp() + downtime_in_seconds <= u64::MAX,
        refresh_fits_u64(vault, clock.timestamp()),
    ensures
        downtime_window_consistent(
            initialized_vault(ctx, clock, cycle_duration_in_seconds, downtime_in_seconds),
        ),
        downtime_window_consistent(vault) ==> downtime_window_consistent(
            refreshed_vault(vault, clock),
        ),
        refreshed_vault(vault, clock).cycle_duration_in_seconds == vault.cycle_duration_in_seconds,
        refreshed_vault(vault, clock).downtime_in_seconds == vault.downtime_in_seconds,
        refreshed_vault(vault, clock).base_token_total_liquidity_shares
            == vault.base_token_total_liquidity_shares,
        refreshed_vault(vault, clock).quote_token_total_liquidity_shares
            == vault.quote_token_total_liquidity_shares,
        refreshed_vault(vault, clock).base_token_balance == vault.base_token_balance,
        refreshed_vault(vault, clock).quote_token_balance == vault.quote_token_balance,
{
}


/// Base shares held by a collection of receipts.
pub open spec fn total_base_shares(receipts: Seq<DepositReceipt>) -> int
    decreases receipts.len(),
{
    if receipts.len() == 0 {
        0
    } else {
        total_base_shares(receipts.drop_last()) + receipts.last().base_token_liquidity_shares
    }
}

/// Quote shares held by a collection of receipts.
pub open spec fn total_quote_shares(receipts: Seq<DepositReceipt>) -> int
    decreases receipts.len(),
{
    if receipts.len() == 0 {
        0
    } else {
        total_quote_shares(receipts.drop_last()) + receipts.last().quote_token_liquidity_shares
    }
}

/// The vault's share totals are the shares held by the open receipts.
pub open spec fn shares_match_receipts(vault: UnifiedVault, receipts: Seq<DepositReceipt>) -> bool {
    &&& vault.base_token_total_liquidity_shares == total_base_shares(receipts)
    &&& vault.quote_token_total_liquidity_shares == total_quote_shares(receipts)
}

proof fn lemma_total_shares_remove(receipts: Seq<DepositReceipt>, i: int)
    requires
        0 <= i < receipts.len(),
    ensures
        total_base_shares(receipts) == total_base_shares(receipts.remove(i))
            + receipts[i].base_token_liquidity_shares,
        total_quote_shares(receipts) == total_quote_shares(receipts.remove(i))
            + receipts[i].quote_token_liquidity_shares,
        total_base_shares(receipts.remove(i)) >= 0,
        total_quote_shares(receipts.remove(i)) >= 0,
    decreases receipts.len(),
{
    let last = receipts.len() - 1;
    if i == last {
        assert(receipts.remove(i) =~= receipts.drop_last());
        lemma_total_shares_nonnegative(receipts.drop_last());
    } else {
        lemma_total_shares_remove(receipts.drop_last(), i);
        assert(receipts.remove(i).drop_last() =~= receipts.drop_last().remove(i));
        assert(receipts.remove(i).last() == receipts.last());
    }
}

proof fn lemma_total_shares_nonnegative(receipts: Seq<DepositReceipt>)
    ensures
        total_base_shares(receipts) >= 0,
        total_quote_shares(receipts) >= 0,
    decreases receipts.len(),
{
    if receipts.len() > 0 {
        lemma_total_shares_nonnegative(receipts.drop_last());
    }
}

/// When the vault's share totals are the shares of its open receipts, they
/// still are after a deposit, counting the receipt it writes.
pub proof fn lemma_deposit_keeps_shares_matching_receipts(
    ctx: DepositFunds,
    base_token_amount: u64,
    quote_token_amount: u64,
    receipts: Seq<DepositReceipt>,
)
    requires
        deposit_fits_u64(ctx, base_token_amount, quote_token_amount),
        shares_match_receipts(ctx.vault, receipts),
    ensures
        shares_match_receipts(
            deposited_vault(ctx, base_token_amount, quote_token_amount),
            receipts.push(deposited_receipt(ctx, base_token_amount, quote_token_amount)),
        ),
{
    let r = deposited_receipt(ctx, base_token_amount, quote_token_amount);
    assert(receipts.push(r).drop_last() =~= receipts);
}

/// When the vault's share totals are the shares of its open receipts, they
/// still are after one of those receipts is withdrawn and closed.
pub proof fn lemma_withdraw_keeps_shares_matching_receipts(
    ctx: WithdrawAllFunds,
    receipts: Seq<DepositReceipt>,
    i: int,
)
    requires
        shares_match_receipts(ctx.vault, receipts),
        0 <= i < receipts.len(),
        receipts[i] == ctx.deposit_receipt,
    ensures
        shares_match_receipts(withdrawn_vault(ctx), receipts.remove(i)),
{
    lemma_total_shares_remove(receipts, i);
}

/// A 64-bit cut of a natural number never exceeds it.
proof fn lemma_cut_at_most(x: nat)
    ensures
        (x as u64) <= x,
{
    if x <= u64::MAX {
        assert((x as u64) == x);
    }
}

proof fn lemma_round_trip_bound(d: u64, total_shares: u64, vault_amount: u64)
    requires
        !(total_shares == 0 && vault_amount > 0),
        total_shares + minted_shares(d, total_shares, vault_amount) <= u64::MAX,
        vault_amount + d <= u64::MAX,
        total_shares + minted_shares(d, total_shares, vault_amount) > 0,
    ensures
        redeemed_tokens(
            minted_shares(d, total_shares, vault_amount),
            (vault_amount + d) as u64,
            (total_shares + minted_shares(d, total_shares, vault_amount)) as u64,
        ) <= d,
{
    let m = minted_shares(d, total_shares, vault_amount);
    let s = total_shares as nat;
    let v = vault_amount as nat;
    assert(m * v <= d * s) by {
        if vault_amount == 0 {
            assert(m * v == 0) by (nonlinear_arith)
                requires
                    v == 0,
            ;
        } else {
            let raw = (d as nat * s) / v;
            lemma_cut_at_most(raw);
            assert(m <= raw);
            lemma_fundamental_div_mod((d as nat * s) as int, v as int);
            lemma_mod_pos_bound((d as nat * s) as int, v as int);
            assert(m * v <= d * s) by (nonlinear_arith)
                requires
                    m <= raw,
                    d * s == v * raw + (d * s) % (v as int),
                    0 <= (d * s) % (v as int),
                    v > 0,
            ;
        }
    }
    let n = m * (v + d);
    let t = s + m;
    assert(n <= d * t) by (nonlinear_arith)
        requires
            m * v <= d * s,
            n == m * (v + d),
            t == s + m,
    ;
    lemma_div_is_ordered(n as int, (d * t) as int, t as int);
    lemma_div_multiples_vanish(d as int, t as int);
    assert(t * d == d * t) by (nonlinear_arith);
}

/// The withdrawal of the receipt a deposit has just written, while the
/// vault's token accounts hold what they held plus the accepted deposit.
pub open spec fn withdrawal_after_deposit(
    ctx: DepositFunds,
    base_token_amount: u64,
    quote_token_amount: u64,
) -> WithdrawAllFunds {
    let accepted = accepted_deposits(
        ctx.base_token_vault_amount,
        ctx.quote_token_vault_amount,
        base_token_amount,
        quote_token_amount,
    );
    WithdrawAllFunds {
        vault: deposited_vault(ctx, base_token_amount, quote_token_amount),
        deposit_receipt: deposited_receipt(ctx, base_token_amount, quote_token_amount),
        base_token_vault_amount: (ctx.base_token_vault_amount + accepted.0) as u64,
        quote_token_vault_amount: (ctx.quote_token_vault_amount + accepted.1) as u64,
    }
}

/// A deposit followed at once by the withdrawal of its receipt never pays
/// back more of a token than the deposit put in, provided the vault held no
/// tokens of a kind without outstanding shares of that kind.
pub proof fn lemma_deposit_then_withdraw_returns_at_most_deposit(
    ctx: DepositFunds,
    base_token_amount: u64,
    quote_token_amount: u64,
)
    requires
        deposit_fits_u64(ctx, base_token_amount, quote_token_amount),
        !(ctx.vault.base_token_total_liquidity_shares == 0 && ctx.base_token_vault_amount > 0),
        !(ctx.vault.quote_token_total_liquidity_shares == 0 && ctx.quote_token_vault_amount > 0),
        ctx.base_token_vault_amount + accepted_deposits(
            ctx.base_token_vault_amount,
            ctx.quote_token_vault_amount,
            base_token_amount,
            quote_token_amount,
        ).0 <= u64::MAX,
        ctx.quote_token_vault_amount + accepted_deposits(
            ctx.base_token_vault_amount,
            ctx.quote_token_vault_amount,
            base_token_amount,
            quote_token_amount,
        ).1 <= u64::MAX,
        receipt_within_vault(withdrawal_after_deposit(ctx, base_token_amount, quote_token_amount)),
    ensures
        withdraw_payouts(withdrawal_after_deposit(ctx, base_token_amount, quote_token_amount)).0
            <= accepted_deposits(
            ctx.base_token_vault_amount,
            ctx.quote_token_vault_amount,
            base_token_amount,
            quote_token_amount,
        ).0,
        withdraw_payouts(withdrawal_after_deposit(ctx, base_token_amount, quote_token_amount)).1
            <= accepted_deposits(
            ctx.base_token_vault_amount,
            ctx.quote_token_vault_amount,
            base_token_amount,
            quote_token_amount,
        ).1,
{
    let accepted = accepted_deposits(
        ctx.base_token_vault_amount,
        ctx.quote_token_vault_amount,
        base_token_amount,
        quote_token_amount,
    );
    let w = withdrawal_after_deposit(ctx, base_token_amount, quote_token_amount);
    lemma_round_trip_bound(
        accepted.0,
        ctx.vault.base_token_total_liquidity_shares,
        ctx.base_token_vault_amount,
    );
    lemma_round_trip_bound(
        accepted.1,
        ctx.vault.quote_token_total_liquidity_shares,
        ctx.quote_token_vault_amount,
    );
    lemma_redeemed_at_most_vault(
        w.deposit_receipt.base_token_liquidity_shares,
        w.base_token_vault_amount,
        w.vault.base_token_total_liquidity_shares,
    );
    lemma_redeemed_at_most_vault(
        w.deposit_receipt.quote_token_liquidity_shares,
        w.quote_token_vault_amount,
        w.vault.quote_token_total_liquidity_shares,
    );
}

/// The vault records no token balance of either kind.
pub open spec fn balances_zero(vault: UnifiedVault) -> bool {
    vault.base_token_balance == 0 && vault.quote_token_balance == 0
}

/// A vault starts with both balance fields at zero, and deposits,
/// withdrawals and refreshes leave them so.
pub proof fn lemma_vault_balances_stay_zero(
    init: InitializeVault,
    init_clock: Clock,
    cycle_duration_in_seconds: u64,
    downtime_in_seconds: u64,
    deposit: DepositFunds,
    base_token_amount: u64,
    quote_token_amount: u64,
    withdrawal: WithdrawAllFunds,
    vault: UnifiedVault,
    clock: Clock,
)
    ensures
        balances_zero(
            initialized_vault(init, init_clock, cycle_duration_in_seconds, downtime_in_seconds),
        ),
        balances_zero(deposit.vault) ==> balances_zero(
            deposited_vault(deposit, base_token_amount, quote_token_amount),
        ),
        balances_zero(withdrawal.vault) ==> balances_zero(withdrawn_vault(withdrawal)),
        balances_zero(vault) ==> balances_zero(refreshed_vault(vault, clock)),
{
}

/// Closing a vault whose balance fields are zero is refused exactly when
/// shares of either token are outstanding.
pub proof fn lemma_close_refused_iff_shares_outstanding(vault: UnifiedVault)
    requires
        balances_zero(vault),
    ensures
        !vault_funds_empty(vault) <==> (vault.base_token_total_liquidity_shares != 0
            || vault.quote_token_total_liquidity_shares != 0),
{
}

/// A refresh never moves the downtime window back, and moves its start at
/// most to one cycle after the old window's end.
pub proof fn lemma_downtime_window_never_moves_back(vault: UnifiedVault, clock: Clock)
    requires
        refresh_fits_u64(vault, clock.timestamp()),
        vault.downtime_start_timestamp <= vault.downtime_end_timestamp,
    ensures
        refreshed_vault(vault, clock).downtime_start_timestamp >= vault.downtime_start_timestamp,
        refreshed_vault(vault, clock).downtime_end_timestamp >= vault.downtime_end_timestamp,
        refreshed_vault(vault, clock).downtime_start_timestamp <= vault.downtime_end_timestamp
            + vault.cycle_duration_in_seconds,
{
}


/// A refresh at a time no later than the end of the downtime window leaves
/// the window where it is; a refresh after its end moves it to open one cycle
/// after the old end and last the vault's downtime. Either way only the slot
/// and the window change.
pub proof fn lemma_refresh_window_rule(vault: UnifiedVault, clock: Clock)
    requires
        refresh_fits_u64(vault, clock.timestamp()),
    ensures
        clock.timestamp() <= vault.downtime_end_timestamp ==> {
            &&& refreshed_vault(vault, clock).downtime_start_timestamp
                == vault.downtime_start_timestamp
            &&& refreshed_vault(vault, clock).downtime_end_timestamp
                == vault.downtime_end_timestamp
        },
        clock.timestamp() > vault.downtime_end_timestamp ==> {
            &&& refreshed_vault(vault, clock).downtime_start_timestamp
                == vault.downtime_end_timestamp + vault.cycle_duration_in_seconds
            &&& refreshed_vault(vault, clock).downtime_end_timestamp
                == vault.downtime_end_timestamp + vault.cycle_duration_in_seconds
                + vault.downtime_in_seconds
        },
        refreshed_vault(vault, clock) == (UnifiedVault {
            last_update_slot: clock.slot,
            downtime_start_timestamp: refreshed_vault(vault, clock).downtime_start_timestamp,
            downtime_end_timestamp: refreshed_vault(vault, clock).downtime_end_timestamp,
            ..vault
        }),
{
}

/// A withdrawal pays exactly the floor of the receipt's part of each token
/// account: the payout times the outstanding shares is at most the receipt's
/// shares times the tokens held, and one more token would be too much.
pub proof fn lemma_withdraw_payout_is_exact_floor(ctx: WithdrawAllFunds)
    requires
        receipt_within_vault(ctx),
    ensures
        withdraw_payouts(ctx).0 * ctx.vault.base_token_total_liquidity_shares
            <= ctx.deposit_receipt.base_token_liquidity_shares * ctx.base_token_vault_amount,
        ctx.deposit_receipt.base_token_liquidity_shares * ctx.base_token_vault_amount < (
        withdraw_payouts(ctx).0 + 1) * ctx.vault.base_token_total_liquidity_shares,
        withdraw_payouts(ctx).1 * ctx.vault.quote_token_total_liquidity_shares
            <= ctx.deposit_receipt.quote_token_liquidity_shares * ctx.quote_token_vault_amount,
        ctx.deposit_receipt.quote_token_liquidity_shares * ctx.quote_token_vault_amount < (
        withdraw_payouts(ctx).1 + 1) * ctx.vault.quote_token_total_liquidity_shares,
{
    lemma_floor_bounds(
        ctx.deposit_receipt.base_token_liquidity_shares,
        ctx.base_token_vault_amount,
        ctx.vault.base_token_total_liquidity_shares,
    );
    lemma_floor_bounds(
        ctx.deposit_receipt.quote_token_liquidity_shares,
        ctx.quote_token_vault_amount,
        ctx.vault.quote_token_total_liquidity_shares,
    );
}

proof fn lemma_floor_bounds(shares: u64, vault_amount: u64, total_shares: u64)
    requires
        0 < total_shares,
        shares <= total_shares,
    ensures
        (redeemed_tokens(shares, vault_amount, total_shares) as u64) * total_shares
            <= shares * vault_amount,
        shares * vault_amount < ((redeemed_tokens(shares, vault_amount, total_shares) as u64)
            + 1) * total_shares,
{
    lemma_redeemed_at_most_vault(shares, vault_amount, total_shares);
    let p = shares * vault_amount;
    let q = redeemed_tokens(shares, vault_amount, total_shares);
    assert((q as u64) == q);
    lemma_fundamental_div_mod(p as int, total_shares as int);
    lemma_mod_pos_bound(p as int, total_shares as int);
    assert(q * total_shares <= p && p < (q + 1) * total_shares) by (nonlinear_arith)
        requires
            p == total_shares * q + p % (total_shares as int),
            0 <= p % (total_shares as int) < total_shares,
    ;
}

/// Tokens of one kind that a list of transfers moves.
pub open spec fn transferred(transfers: Seq<TokenTransfer>, token: TokenKind) -> int
    decreases transfers.len(),
{
    if transfers.len() == 0 {
        0
    } else {
        transferred(transfers.drop_last(), token) + if transfers.last().token == token {
            transfers.last().amount as int
        } else {
            0
        }
    }
}

/// The transfers an instruction asks for move exactly the given amounts of
/// each token, every one of them a positive amount.
pub proof fn lemma_transfers_move_exact_amounts(base: u64, quote: u64)
    ensures
        transferred(nonzero_transfers(base, quote), TokenKind::Base) == base,
        transferred(nonzero_transfers(base, quote), TokenKind::Quote) == quote,
        forall|i: int|
            0 <= i < nonzero_transfers(base, quote).len() ==> #[trigger] nonzero_transfers(
                base,
                quote,
            )[i].amount > 0,
{
    let t = nonzero_transfers(base, quote);
    reveal_with_fuel(transferred, 3);
    if base > 0 && quote > 0 {
        assert(t.drop_last().drop_last() =~= Seq::<TokenTransfer>::empty());
    } else if base > 0 || quote > 0 {
        assert(t.drop_last() =~= Seq::<TokenTransfer>::empty());
    }
}

/// A deposit asks for exactly the accepted amounts to be transferred: every
/// positive accepted amount as a transfer of its own token.
pub proof fn lemma_deposit_transfers_accepted_amounts(
    ctx: DepositFunds,
    base_token_amount: u64,
    quote_token_amount: u64,
)
    ensures
        ({
            let accepted = accepted_deposits(
                ctx.base_token_vault_amount,
                ctx.quote_token_vault_amount,
                base_token_amount,
                quote_token_amount,
            );
            &&& transferred(nonzero_transfers(accepted.0, accepted.1), TokenKind::Base)
                == accepted.0
            &&& transferred(nonzero_transfers(accepted.0, accepted.1), TokenKind::Quote)
                == accepted.1
        }),
{
    let accepted = accepted_deposits(
        ctx.base_token_vault_amount,
        ctx.quote_token_vault_amount,
        base_token_amount,
        quote_token_amount,
    );
    lemma_transfers_move_exact_amounts(accepted.0, accepted.1);
}


/// A deposit writes a receipt naming the depositor, the vault and the
/// receipt's bump, and changes only the vault's share totals, each by exactly
/// the shares on the new receipt. When matching refuses the offer, nothing
/// is transferred and no shares are minted.
pub proof fn lemma_deposit_effects(
    ctx: DepositFunds,
    base_token_amount: u64,
    quote_token_amount: u64,
)
    requires
        deposit_fits_u64(ctx, base_token_amount, quote_token_amount),
    ensures
        ({
            let r = deposited_receipt(ctx, base_token_amount, quote_token_amount);
            let v = deposited_vault(ctx, base_token_amount, quote_token_amount);
            &&& r.owner == ctx.owner
            &&& r.vault == ctx.vault_key
            &&& r.bump == ctx.deposit_receipt_bump
            &&& v.base_token_total_liquidity_shares == ctx.vault.base_token_total_liquidity_shares
                + r.base_token_liquidity_shares
            &&& v.quote_token_total_liquidity_shares
                == ctx.vault.quote_token_total_liquidity_shares + r.quote_token_liquidity_shares
            &&& v == (UnifiedVault {
                base_token_total_liquidity_shares: v.base_token_total_liquidity_shares,
                quote_token_total_liquidity_shares: v.quote_token_total_liquidity_shares,
                ..ctx.vault
            })
        }),
        matched_deposits(
            ctx.base_token_vault_amount,
            ctx.quote_token_vault_amount,
            base_token_amount,
            quote_token_amount,
        ) is Err ==> {
            &&& nonzero_transfers(
                accepted_deposits(
                    ctx.base_token_vault_amount,
                    ctx.quote_token_vault_amount,
                    base_token_amount,
                    quote_token_amount,
                ).0,
                accepted_deposits(
                    ctx.base_token_vault_amount,
                    ctx.quote_token_vault_amount,
                    base_token_amount,
                    quote_token_amount,
                ).1,
            ).len() == 0
            &&& deposited_receipt(
                ctx,
                base_token_amount,
                quote_token_amount,
            ).base_token_liquidity_shares == 0
            &&& deposited_receipt(
                ctx,
                base_token_amount,
                quote_token_amount,
            ).quote_token_liquidity_shares == 0
        },
{
    let accepted = accepted_deposits(
        ctx.base_token_vault_amount,
        ctx.quote_token_vault_amount,
        base_token_amount,
        quote_token_amount,
    );
    if matched_deposits(
        ctx.base_token_vault_amount,
        ctx.quote_token_vault_amount,
        base_token_amount,
        quote_token_amount,
    ) is Err {
        assert(accepted.0 == 0 && accepted.1 == 0);
        lemma_mul_basics(ctx.vault.base_token_total_liquidity_shares as int);
        lemma_mul_basics(ctx.vault.quote_token_total_liquidity_shares as int);
        if ctx.base_token_vault_amount > 0 {
            lemma_div_of0(ctx.base_token_vault_amount as int);
        }
        if ctx.quote_token_vault_amount > 0 {
            lemma_div_of0(ctx.quote_token_vault_amount as int);
        }
    }
}

/// A deposit of `d` tokens mints `d` shares while the vault's token account
/// or its shares of that token are empty; otherwise it mints the floor of
/// `d * total_shares / vault_amount`, cut to its low 64 bits.
pub proof fn lemma_minted_shares_rule(new_deposit: u64, total_shares: u64, vault_amount: u64)
    ensures
        (vault_amount == 0 || total_shares == 0) ==> minted_shares(
            new_deposit,
            total_shares,
            vault_amount,
        ) == new_deposit,
        (vault_amount > 0 && total_shares > 0) ==> ({
            let m = minted_shares(new_deposit, total_shares, vault_amount) as int;
            let p = new_deposit * total_shares;
            exists|q: int|
                #![trigger q * vault_amount]
                q * vault_amount <= p < (q + 1) * vault_amount && m == q % 0x1_0000_0000_0000_0000
        }),
{
    if vault_amount > 0 && total_shares > 0 {
        let p = new_deposit * total_shares;
        lemma_fundamental_div_mod(p as int, vault_amount as int);
        lemma_mod_pos_bound(p as int, vault_amount as int);
        let q = p / (vault_amount as int);
        assert(q * vault_amount <= p && p < (q + 1) * vault_amount) by (nonlinear_arith)
            requires
                p == vault_amount * q + p % (vault_amount as int),
                0 <= p % (vault_amount as int) < vault_amount,
        ;
        vstd::arithmetic::mul::lemma_mul_upper_bound(
            new_deposit as int,
            u64::MAX as int,
            total_shares as int,
            u64::MAX as int,
        );
        lemma_div_is_ordered(p as int, u128::MAX as int, vault_amount as int);
        lemma_div_basics(u128::MAX as int);
        assert(0 <= q <= u128::MAX);
        let q128: u128 = q as u128;
        assert(q128 == q);
        assert((q128 as u64) == q128 % 0x1_0000_0000_0000_0000) by (bit_vector);
        assert(minted_shares(new_deposit, total_shares, vault_amount) == (q128 as u64));
    }
}

/// A withdrawal changes only the vault's share totals, lowering each by
/// exactly the shares on the withdrawn receipt.
pub proof fn lemma_withdraw_effects(ctx: WithdrawAllFunds)
    requires
        receipt_within_vault(ctx),
    ensures
        withdrawn_vault(ctx).base_token_total_liquidity_shares
            + ctx.deposit_receipt.base_token_liquidity_shares
            == ctx.vault.base_token_total_liquidity_shares,
        withdrawn_vault(ctx).quote_token_total_liquidity_shares
            + ctx.deposit_receipt.quote_token_liquidity_shares
            == ctx.vault.quote_token_total_liquidity_shares,
        withdrawn_vault(ctx) == (UnifiedVault {
            base_token_total_liquidity_shares: withdrawn_vault(ctx).base_token_total_liquidity_shares,
            quote_token_total_liquidity_shares: withdrawn_vault(
                ctx,
            ).quote_token_total_liquidity_shares,
            ..ctx.vault
        }),
{
}

/// A new vault records the addresses it is given, holds no balance and no
/// shares, has its first downtime window open at the clock's time and last
/// `downtime_in_seconds`, and records both durations and the clock's slot.
pub proof fn lemma_initialize_effects(
    ctx: InitializeVault,
    clock: Clock,
    cycle_duration_in_seconds: u64,
    downtime_in_seconds: u64,
)
    requires
        clock.timestamp() + downtime_in_seconds <= u64::MAX,
    ensures
        ({
            let v = initialized_vault(ctx, clock, cycle_duration_in_seconds, downtime_in_seconds);
            &&& v.bump == ctx.vault_bump
            &&& v.owner == ctx.owner
            &&& v.market_identifier == ctx.market_identifier
            &&& v.vault_identifier == ctx.vault_identifier
            &&& v.trade_manager == ctx.trade_manager
            &&& v.base_token_mint == ctx.base_token_mint
            &&& v.quote_token_mint == ctx.quote_token_mint
            &&& v.base_token_vault_ac == ctx.base_token_vault_ac
            &&& v.quote_token_vault_ac == ctx.quote_token_vault_ac
            &&& v.base_token_balance == 0 && v.quote_token_balance == 0
            &&& v.base_token_total_liquidity_shares == 0
            &&& v.quote_token_total_liquidity_shares == 0
            &&& v.downtime_start_timestamp == clock.timestamp()
            &&& v.downtime_end_timestamp == clock.timestamp() + downtime_in_seconds
            &&& v.cycle_duration_in_seconds == cycle_duration_in_seconds
            &&& v.downtime_in_seconds == downtime_in_seconds
            &&& v.last_update_slot == clock.slot
        }),
{
}

/// Closing is refused exactly when the vault records a balance or
/// outstanding shares of either token.
pub proof fn lemma_close_rule(vault: UnifiedVault)
    ensures
        !vault_funds_empty(vault) <==> (vault.base_token_balance != 0
            || vault.base_token_total_liquidity_shares != 0 || vault.quote_token_balance != 0
            || vault.quote_token_total_liquidity_shares != 0),
{
}

/// A refresh first cancels up to two resting orders on both sides; in
/// cancel-only mode that is all, otherwise it then places the bid and then
/// the ask exactly as given.
pub proof fn lemma_refresh_actions_rule<A>(bid: A, ask: A, cancel_only_mode: bool)

    ensures
        refresh_actions(bid, ask, cancel_only_mode).len() > 0,
        refresh_actions(bid, ask, cancel_only_mode)[0] == (OrderAction::<A>::CancelAllOrders {
            limit: 2,
        }),
        cancel_only_mode ==> refresh_actions(bid, ask, cancel_only_mode).len() == 1,
        !cancel_only_mode ==> {
            &&& refresh_actions(bid, ask, cancel_only_mode).len() == 3
            &&& refresh_actions(bid, ask, cancel_only_mode)[1] == OrderAction::PlaceBid(bid)
            &&& refresh_actions(bid, ask, cancel_only_mode)[2] == OrderAction::PlaceAsk(ask)
        },
{
    assert(CANCEL_ALL_ORDERS_LIMIT == 2);
}

/// An unfunded vault takes the offer as it stands.
pub proof fn lemma_unfunded_vault_takes_offer(vb: u64, vq: u64, user_base: u64, user_quote: u64)
    requires
        vb == 0 || vq == 0,
    ensures
        matched_deposits(vb, vq, user_base, user_quote) == Ok::<(u64, u64), RootError>(
            (user_base, user_quote),
        ),
{
}

} // verus!
