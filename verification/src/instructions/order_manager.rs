use vstd::prelude::*;

use crate::state::{Clock, UnifiedVault};

verus! {

/// How many resting orders a refresh cancels at most.
pub const CANCEL_ALL_ORDERS_LIMIT: u8 = 2;

/// A step of a quote refresh on the order book, with order arguments of type `A`.
#[derive(Debug, Clone, Copy)]
pub enum OrderAction<A> {
    /// Cancel up to `limit` of the vault's resting orders on both sides.
    CancelAllOrders { limit: u8 },
    /// Place a bid, paid from the vault's quote token account.
    PlaceBid(A),
    /// Place an ask, paid from the vault's base token account.
    PlaceAsk(A),
}

/// The accounts a quote refresh reads and writes, as plain values.
#[derive(Debug, Clone, Copy)]
pub struct RefreshQuotesOnOpenbookV2 {
    pub vault: UnifiedVault,
}

/// Time `now` falls in the vault's downtime window.
pub open spec fn within_downtime(vault: UnifiedVault, now: u64) -> bool {
    vault.downtime_start_timestamp <= now < vault.downtime_end_timestamp
}

/// Whether `timestamp` falls in the vault's downtime window, the half-open
/// interval from its start to its end.
pub fn in_downtime(vault: &UnifiedVault, timestamp: u64) -> (b: bool)
    ensures
        b == within_downtime(*vault, timestamp),
        b == (vault.downtime_start_timestamp <= timestamp && timestamp
            < vault.downtime_end_timestamp),
{
    timestamp >= vault.downtime_start_timestamp && timestamp < vault.downtime_end_timestamp
}

/// The downtime window has passed by time `now`.
pub open spec fn downtime_passed(vault: UnifiedVault, now: u64) -> bool {
    now > vault.downtime_end_timestamp
}

/// Whether the vault's downtime window has passed by `timestamp`, so that a
/// refresh at that time moves it to the next cycle.
pub fn window_passed(vault: &UnifiedVault, timestamp: u64) -> (b: bool)
    ensures
        b == downtime_passed(*vault, timestamp),
        b == (timestamp > vault.downtime_end_timestamp),
{
    timestamp > vault.downtime_end_timestamp
}

/// The vault after a refresh at `clock`: the update slot is recorded, and a
/// downtime window that has passed is replaced by the next one, which opens
/// one cycle after the old one closed and lasts the vault's downtime.
pub open spec fn refreshed_vault(vault: UnifiedVault, clock: Clock) -> UnifiedVault {
    if downtime_passed(vault, clock.timestamp()) {
        let start = vault.downtime_end_timestamp + vault.cycle_duration_in_seconds;
        UnifiedVault {
            last_update_slot: clock.slot,
            downtime_start_timestamp: start as u64,
            downtime_end_timestamp: (start + vault.downtime_in_seconds) as u64,
            ..vault
        }
    } else {
        UnifiedVault { last_update_slot: clock.slot, ..vault }
    }
}

/// The next downtime window fits in 64-bit timestamps whenever a refresh at
/// `now` computes it.
pub open spec fn refresh_fits_u64(vault: UnifiedVault, now: u64) -> bool {
    downtime_passed(vault, now) ==> vault.downtime_end_timestamp + vault.cycle_duration_in_seconds
        + vault.downtime_in_seconds <= u64::MAX
}

/// Whether `refresh_quotes_on_openbook_v2` can run on this vault at `clock`
/// without leaving 64-bit timestamps (its precondition).
pub fn refresh_fits(vault: &UnifiedVault, clock: &Clock) -> (fits: bool)
    ensures
        fits == refresh_fits_u64(*vault, clock.timestamp()),
{
    let now = clock.current_timestamp();
    if now > vault.downtime_end_timestamp {
        vault.cycle_duration_in_seconds <= u64::MAX - vault.downtime_end_timestamp
            && vault.downtime_in_seconds <= u64::MAX - vault.downtime_end_timestamp
            - vault.cycle_duration_in_seconds
    } else {
        true
    }
}

/// The order book steps of a refresh: the vault's resting orders are always
/// cancelled; unless only cancelling, the bid and then the ask are placed.
pub open spec fn refresh_actions<A>(bid: A, ask: A, cancel_only_mode: bool) -> Seq<OrderAction<A>> {
    let cancel = seq![OrderAction::CancelAllOrders { limit: CANCEL_ALL_ORDERS_LIMIT }];
    if cancel_only_mode {
        cancel
    } else {
        cancel + seq![OrderAction::PlaceBid(bid), OrderAction::PlaceAsk(ask)]
    }
}

/// Refreshes the vault's quotes at time `clock`: rolls the downtime window
/// forward when it has passed, records the slot, and returns the order book
/// steps to perform, in order.
pub fn refresh_quotes_on_openbook_v2<A>(
    ctx: &mut RefreshQuotesOnOpenbookV2,
    clock: &Clock,
    bid_order_args: A,
    ask_order_args: A,
    cancel_only_mode: bool,
) -> (actions: Vec<OrderAction<A>>)
    requires
        refresh_fits_u64(old(ctx).vault, clock.timestamp()),
    ensures
        final(ctx).vault == refreshed_vault(old(ctx).vault, *clock),
        actions@ == refresh_actions(bid_order_args, ask_order_args, cancel_only_mode),
{
    let current_timestamp = clock.current_timestamp();
    ctx.vault.last_update_slot = clock.slot;

    if window_passed(&ctx.vault, current_timestamp) {
        let next_downtime_start = ctx.vault.downtime_end_timestamp
            + ctx.vault.cycle_duration_in_seconds;
        let next_downtime_end = next_downtime_start + ctx.vault.downtime_in_seconds;
        ctx.vault.downtime_start_timestamp = next_downtime_start;
        ctx.vault.downtime_end_timestamp = next_downtime_end;
    }

    let mut actions: Vec<OrderAction<A>> = Vec::new();
    actions.push(OrderAction::CancelAllOrders { limit: CANCEL_ALL_ORDERS_LIMIT });
    if !cancel_only_mode {
        actions.push(OrderAction::PlaceBid(bid_order_args));
        actions.push(OrderAction::PlaceAsk(ask_order_args));
    }
    actions
}

} // verus!
