use root_market_maker::errors::RootError;
use root_market_maker::instructions::funds_manager::{
    deposit_funds, withdraw_all_funds, DepositFunds, TokenKind, TokenTransfer, WithdrawAllFunds,
};
use root_market_maker::instructions::order_manager::{
    in_downtime, refresh_quotes_on_openbook_v2, window_passed, OrderAction,
    RefreshQuotesOnOpenbookV2,
};
use root_market_maker::instructions::vault_manager::{
    close_vault, initialize_vault, CloseVault, InitializeVault,
};
use root_market_maker::state::{Clock, DepositReceipt, UnifiedVault};
use root_market_maker::utils::OrderParams;

fn key(n: u8) -> [u8; 32] {
    [n; 32]
}

fn new_vault() -> UnifiedVault {
    let accounts = InitializeVault {
        owner: key(1),
        market_identifier: key(2),
        vault_identifier: key(3),
        vault_bump: 254,
        trade_manager: key(4),
        base_token_mint: key(5),
        quote_token_mint: key(6),
        base_token_vault_ac: key(7),
        quote_token_vault_ac: key(8),
    };
    initialize_vault(&accounts, &Clock { slot: 77, unix_timestamp: 1_000 }, 3_600, 600)
}

fn empty_receipt() -> DepositReceipt {
    DepositReceipt {
        bump: 0,
        owner: [0; 32],
        vault: [0; 32],
        base_token_liquidity_shares: 0,
        quote_token_liquidity_shares: 0,
    }
}

fn deposit_ctx(vault: UnifiedVault, base_amount: u64, quote_amount: u64) -> DepositFunds {
    DepositFunds {
        owner: key(9),
        vault_key: key(10),
        vault,
        deposit_receipt: empty_receipt(),
        deposit_receipt_bump: 251,
        base_token_vault_amount: base_amount,
        quote_token_vault_amount: quote_amount,
    }
}

#[test]
fn initialize_vault_records_accounts_and_first_window() {
    let v = new_vault();
    assert_eq!(v.bump, 254);
    assert_eq!(v.owner, key(1));
    assert_eq!(v.market_identifier, key(2));
    assert_eq!(v.vault_identifier, key(3));
    assert_eq!(v.trade_manager, key(4));
    assert_eq!(v.base_token_mint, key(5));
    assert_eq!(v.quote_token_mint, key(6));
    assert_eq!(v.base_token_vault_ac, key(7));
    assert_eq!(v.quote_token_vault_ac, key(8));
    assert_eq!(v.base_token_balance, 0);
    assert_eq!(v.quote_token_balance, 0);
    assert_eq!(v.base_token_total_liquidity_shares, 0);
    assert_eq!(v.quote_token_total_liquidity_shares, 0);
    assert_eq!(v.downtime_start_timestamp, 1_000);
    assert_eq!(v.downtime_end_timestamp, 1_600);
    assert_eq!(v.cycle_duration_in_seconds, 3_600);
    assert_eq!(v.downtime_in_seconds, 600);
    assert_eq!(v.last_update_slot, 77);
    assert_eq!(UnifiedVault::LEN, 353);
    assert_eq!(DepositReceipt::LEN, 96);
}

#[test]
fn initialize_vault_with_negative_clock_wraps_timestamp() {
    let accounts = InitializeVault {
        owner: key(1),
        market_identifier: key(2),
        vault_identifier: key(3),
        vault_bump: 1,
        trade_manager: key(4),
        base_token_mint: key(5),
        quote_token_mint: key(6),
        base_token_vault_ac: key(7),
        quote_token_vault_ac: key(8),
    };
    let v = initialize_vault(&accounts, &Clock { slot: 1, unix_timestamp: -1 }, 10, 0);
    assert_eq!(v.downtime_start_timestamp, u64::MAX);
    assert_eq!(v.downtime_end_timestamp, u64::MAX);
}

#[test]
fn new_vault_closes_and_returns_lamports() {
    let v = new_vault();
    assert_eq!(close_vault(&CloseVault { vault: v, trade_manager_lamports: 5_000 }), Ok(5_000));
}

#[test]
fn close_vault_refused_with_funds_or_shares() {
    let mut v = new_vault();
    v.base_token_total_liquidity_shares = 1;
    assert_eq!(
        close_vault(&CloseVault { vault: v, trade_manager_lamports: 5 }),
        Err(RootError::VaultFundsNotEmpty)
    );
    let mut v = new_vault();
    v.quote_token_balance = 3;
    assert_eq!(
        close_vault(&CloseVault { vault: v, trade_manager_lamports: 5 }),
        Err(RootError::VaultFundsNotEmpty)
    );
}

#[test]
fn first_deposit_mints_one_share_per_token() {
    let mut ctx = deposit_ctx(new_vault(), 0, 0);
    let transfers = deposit_funds(&mut ctx, 500, 1_000);
    assert_eq!(
        transfers,
        vec![
            TokenTransfer { token: TokenKind::Base, amount: 500 },
            TokenTransfer { token: TokenKind::Quote, amount: 1_000 },
        ]
    );
    assert_eq!(ctx.vault.base_token_total_liquidity_shares, 500);
    assert_eq!(ctx.vault.quote_token_total_liquidity_shares, 1_000);
    assert_eq!(ctx.deposit_receipt.base_token_liquidity_shares, 500);
    assert_eq!(ctx.deposit_receipt.quote_token_liquidity_shares, 1_000);
    assert_eq!(ctx.deposit_receipt.owner, key(9));
    assert_eq!(ctx.deposit_receipt.vault, key(10));
    assert_eq!(ctx.deposit_receipt.bump, 251);
}

#[test]
fn later_deposit_mints_shares_in_proportion() {
    let mut vault = new_vault();
    vault.base_token_total_liquidity_shares = 100;
    vault.quote_token_total_liquidity_shares = 300;
    // The vault holds 200 base and 400 quote: ratio 1:2.
    let mut ctx = deposit_ctx(vault, 200, 400);
    let transfers = deposit_funds(&mut ctx, 51, 101);
    // 51:101 is cut to 50:101, which breaks the ratio: nothing is deposited.
    assert_eq!(transfers, vec![]);
    assert_eq!(ctx.deposit_receipt.base_token_liquidity_shares, 0);
    assert_eq!(ctx.vault.base_token_total_liquidity_shares, 100);

    let mut ctx = deposit_ctx(vault, 200, 400);
    let transfers = deposit_funds(&mut ctx, 50, 100);
    assert_eq!(
        transfers,
        vec![
            TokenTransfer { token: TokenKind::Base, amount: 50 },
            TokenTransfer { token: TokenKind::Quote, amount: 100 },
        ]
    );
    // 50 * 100 / 200 = 25 base shares, 100 * 300 / 400 = 75 quote shares.
    assert_eq!(ctx.deposit_receipt.base_token_liquidity_shares, 25);
    assert_eq!(ctx.deposit_receipt.quote_token_liquidity_shares, 75);
    assert_eq!(ctx.vault.base_token_total_liquidity_shares, 125);
    assert_eq!(ctx.vault.quote_token_total_liquidity_shares, 375);
}

#[test]
fn deposit_rounds_shares_down() {
    let mut vault = new_vault();
    vault.base_token_total_liquidity_shares = 10;
    vault.quote_token_total_liquidity_shares = 10;
    let mut ctx = deposit_ctx(vault, 3, 3);
    deposit_funds(&mut ctx, 1, 1);
    // 1 * 10 / 3 = 3.33..., rounded down.
    assert_eq!(ctx.deposit_receipt.base_token_liquidity_shares, 3);
    assert_eq!(ctx.vault.base_token_total_liquidity_shares, 13);
}

#[test]
fn withdraw_pays_receipt_part_of_vault() {
    let mut vault = new_vault();
    vault.base_token_total_liquidity_shares = 125;
    vault.quote_token_total_liquidity_shares = 375;
    let receipt = DepositReceipt {
        bump: 251,
        owner: key(9),
        vault: key(10),
        base_token_liquidity_shares: 25,
        quote_token_liquidity_shares: 75,
    };
    let mut ctx = WithdrawAllFunds {
        vault,
        deposit_receipt: receipt,
        base_token_vault_amount: 260,
        quote_token_vault_amount: 501,
    };
    let transfers = withdraw_all_funds(&mut ctx);
    // 25 * 260 / 125 = 52; 75 * 501 / 375 = 100.2, rounded down.
    assert_eq!(
        transfers,
        vec![
            TokenTransfer { token: TokenKind::Base, amount: 52 },
            TokenTransfer { token: TokenKind::Quote, amount: 100 },
        ]
    );
    assert_eq!(ctx.vault.base_token_total_liquidity_shares, 100);
    assert_eq!(ctx.vault.quote_token_total_liquidity_shares, 300);
    assert_eq!(ctx.deposit_receipt.base_token_liquidity_shares, 25);
}

#[test]
fn withdraw_skips_zero_payouts() {
    let mut vault = new_vault();
    vault.base_token_total_liquidity_shares = 10;
    vault.quote_token_total_liquidity_shares = 10;
    let mut receipt = empty_receipt();
    receipt.quote_token_liquidity_shares = 10;
    let mut ctx = WithdrawAllFunds {
        vault,
        deposit_receipt: receipt,
        base_token_vault_amount: 100,
        quote_token_vault_amount: 7,
    };
    let transfers = withdraw_all_funds(&mut ctx);
    assert_eq!(transfers, vec![TokenTransfer { token: TokenKind::Quote, amount: 7 }]);
    assert_eq!(ctx.vault.quote_token_total_liquidity_shares, 0);
    assert_eq!(ctx.vault.base_token_total_liquidity_shares, 10);
}

#[test]
fn sole_depositor_gets_deposit_back() {
    let mut ctx = deposit_ctx(new_vault(), 0, 0);
    deposit_funds(&mut ctx, 700, 900);
    let mut w = WithdrawAllFunds {
        vault: ctx.vault,
        deposit_receipt: ctx.deposit_receipt,
        base_token_vault_amount: 700,
        quote_token_vault_amount: 900,
    };
    let transfers = withdraw_all_funds(&mut w);
    assert_eq!(
        transfers,
        vec![
            TokenTransfer { token: TokenKind::Base, amount: 700 },
            TokenTransfer { token: TokenKind::Quote, amount: 900 },
        ]
    );
    assert_eq!(w.vault.base_token_total_liquidity_shares, 0);
    assert_eq!(w.vault.quote_token_total_liquidity_shares, 0);
    assert_eq!(close_vault(&CloseVault { vault: w.vault, trade_manager_lamports: 1 }), Ok(1));
}

fn quote(price: u64, is_bid: bool) -> OrderParams {
    OrderParams { price_in_ticks: price, size_in_base_lots: 5, strictly_post_only: true, is_bid }
}

#[test]
fn refresh_inside_window_keeps_window_and_places_both_sides() {
    let mut ctx = RefreshQuotesOnOpenbookV2 { vault: new_vault() };
    let clock = Clock { slot: 90, unix_timestamp: 1_200 };
    let actions = refresh_quotes_on_openbook_v2(&mut ctx, &clock, quote(99, true), quote(101, false), false);
    assert_eq!(actions.len(), 3);
    assert!(matches!(actions[0], OrderAction::CancelAllOrders { limit: 2 }));
    assert!(matches!(actions[1], OrderAction::PlaceBid(p) if p == quote(99, true)));
    assert!(matches!(actions[2], OrderAction::PlaceAsk(p) if p == quote(101, false)));
    assert_eq!(ctx.vault.downtime_start_timestamp, 1_000);
    assert_eq!(ctx.vault.downtime_end_timestamp, 1_600);
    assert_eq!(ctx.vault.last_update_slot, 90);
}

#[test]
fn refresh_after_window_rolls_to_next_window() {
    let mut ctx = RefreshQuotesOnOpenbookV2 { vault: new_vault() };
    let clock = Clock { slot: 91, unix_timestamp: 1_601 };
    let actions = refresh_quotes_on_openbook_v2(&mut ctx, &clock, quote(1, true), quote(2, false), true);
    assert_eq!(actions.len(), 1);
    assert!(matches!(actions[0], OrderAction::CancelAllOrders { limit: 2 }));
    // Next window opens one cycle after the old one closed and lasts the downtime.
    assert_eq!(ctx.vault.downtime_start_timestamp, 5_200);
    assert_eq!(ctx.vault.downtime_end_timestamp, 5_800);
    assert_eq!(ctx.vault.last_update_slot, 91);
}

#[test]
fn refresh_at_window_end_does_not_roll() {
    let mut ctx = RefreshQuotesOnOpenbookV2 { vault: new_vault() };
    let clock = Clock { slot: 5, unix_timestamp: 1_600 };
    refresh_quotes_on_openbook_v2(&mut ctx, &clock, 0u8, 0u8, true);
    assert_eq!(ctx.vault.downtime_start_timestamp, 1_000);
    assert_eq!(ctx.vault.downtime_end_timestamp, 1_600);
}

#[test]
fn downtime_window_is_half_open() {
    let v = new_vault();
    assert!(!in_downtime(&v, 999));
    assert!(in_downtime(&v, 1_000));
    assert!(in_downtime(&v, 1_599));
    assert!(!in_downtime(&v, 1_600));
}

#[test]
fn withdrawing_fresh_receipt_restores_share_totals() {
    let mut vault = new_vault();
    vault.base_token_total_liquidity_shares = 1_000;
    vault.quote_token_total_liquidity_shares = 2_000;
    let mut ctx = deposit_ctx(vault, 300, 600);
    deposit_funds(&mut ctx, 30, 60);
    assert_eq!(ctx.deposit_receipt.base_token_liquidity_shares, 100);
    assert_eq!(ctx.deposit_receipt.quote_token_liquidity_shares, 200);
    let mut w = WithdrawAllFunds {
        vault: ctx.vault,
        deposit_receipt: ctx.deposit_receipt,
        base_token_vault_amount: 330,
        quote_token_vault_amount: 660,
    };
    let transfers = withdraw_all_funds(&mut w);
    assert_eq!(w.vault.base_token_total_liquidity_shares, 1_000);
    assert_eq!(w.vault.quote_token_total_liquidity_shares, 2_000);
    // 100 * 330 / 1100 = 30; 200 * 660 / 2200 = 60.
    assert_eq!(
        transfers,
        vec![
            TokenTransfer { token: TokenKind::Base, amount: 30 },
            TokenTransfer { token: TokenKind::Quote, amount: 60 },
        ]
    );
}

#[test]
fn window_passed_only_after_window_end() {
    let v = new_vault();
    assert!(!window_passed(&v, 1_600));
    assert!(window_passed(&v, 1_601));
}

#[test]
fn share_totals_track_open_receipts() {
    // Two depositors, then the first withdraws.
    let mut ctx = deposit_ctx(new_vault(), 0, 0);
    deposit_funds(&mut ctx, 100, 200);
    let first = ctx.deposit_receipt;
    let mut ctx = deposit_ctx(ctx.vault, 100, 200);
    deposit_funds(&mut ctx, 50, 100);
    let second = ctx.deposit_receipt;
    assert_eq!(
        ctx.vault.base_token_total_liquidity_shares,
        first.base_token_liquidity_shares + second.base_token_liquidity_shares
    );
    assert_eq!(
        ctx.vault.quote_token_total_liquidity_shares,
        first.quote_token_liquidity_shares + second.quote_token_liquidity_shares
    );
    let mut w = WithdrawAllFunds {
        vault: ctx.vault,
        deposit_receipt: first,
        base_token_vault_amount: 150,
        quote_token_vault_amount: 300,
    };
    withdraw_all_funds(&mut w);
    assert_eq!(w.vault.base_token_total_liquidity_shares, second.base_token_liquidity_shares);
    assert_eq!(w.vault.quote_token_total_liquidity_shares, second.quote_token_liquidity_shares);
}

#[test]
fn deposit_then_withdraw_returns_at_most_deposit() {
    // Vault with 7 base / 9 quote tokens behind 5 / 5 shares.
    let mut vault = new_vault();
    vault.base_token_total_liquidity_shares = 5;
    vault.quote_token_total_liquidity_shares = 5;
    let mut ctx = deposit_ctx(vault, 7, 9);
    let transfers = deposit_funds(&mut ctx, 70, 90);
    assert_eq!(
        transfers,
        vec![
            TokenTransfer { token: TokenKind::Base, amount: 70 },
            TokenTransfer { token: TokenKind::Quote, amount: 90 },
        ]
    );
    let mut w = WithdrawAllFunds {
        vault: ctx.vault,
        deposit_receipt: ctx.deposit_receipt,
        base_token_vault_amount: 77,
        quote_token_vault_amount: 99,
    };
    let payouts = withdraw_all_funds(&mut w);
    for t in payouts {
        match t.token {
            TokenKind::Base => assert!(t.amount <= 70),
            TokenKind::Quote => assert!(t.amount <= 90),
        }
    }
}

#[test]
fn balances_stay_zero_and_close_depends_on_shares() {
    let mut ctx = deposit_ctx(new_vault(), 0, 0);
    deposit_funds(&mut ctx, 10, 20);
    assert_eq!(ctx.vault.base_token_balance, 0);
    assert_eq!(ctx.vault.quote_token_balance, 0);
    let mut r = RefreshQuotesOnOpenbookV2 { vault: ctx.vault };
    refresh_quotes_on_openbook_v2(&mut r, &Clock { slot: 2, unix_timestamp: 9_999 }, 0u8, 0u8, false);
    assert_eq!(r.vault.base_token_balance, 0);
    assert_eq!(r.vault.quote_token_balance, 0);
    assert_eq!(
        close_vault(&CloseVault { vault: r.vault, trade_manager_lamports: 1 }),
        Err(RootError::VaultFundsNotEmpty)
    );
}
