use root_market_maker::errors::RootError;
use root_market_maker::utils::{gcd, match_deposit_ratios};

#[test]
pub fn match0() {
    let vault_base = 0;
    let vault_quote = 0;

    let max_user_base = 3232;
    let max_user_quote = 121;

    let (adjusted_base, adjusted_quote) =
        match_deposit_ratios(vault_base, vault_quote, max_user_base, max_user_quote).unwrap();

    assert_eq!(adjusted_base, 3232);
    assert_eq!(adjusted_quote, 121);
}

#[test]
pub fn match1() {
    let vault_base = 50;
    let vault_quote = 100;

    let max_user_base = 50;
    let max_user_quote = 100;

    let (adjusted_base, adjusted_quote) =
        match_deposit_ratios(vault_base, vault_quote, max_user_base, max_user_quote).unwrap();

    assert_eq!(adjusted_base, 50);
    assert_eq!(adjusted_quote, 100);
}

#[test]
pub fn match2() {
    let vault_base = 50;
    let vault_quote = 100;

    let max_user_base = 51;
    let max_user_quote = 100;

    let (adjusted_base, adjusted_quote) =
        match_deposit_ratios(vault_base, vault_quote, max_user_base, max_user_quote).unwrap();

    assert_eq!(adjusted_base, 50);
    assert_eq!(adjusted_quote, 100);
}

#[test]
pub fn match3() {
    let vault_base = 50;
    let vault_quote = 100;

    let max_user_base = 51;
    let max_user_quote = 102;

    let (adjusted_base, adjusted_quote) =
        match_deposit_ratios(vault_base, vault_quote, max_user_base, max_user_quote).unwrap();

    assert_eq!(adjusted_base, 51);
    assert_eq!(adjusted_quote, 102);
}

#[test]
pub fn match4() {
    let vault_base = 500_000_000;
    let vault_quote = 100_000_000;

    let max_user_base = 490_100_000;
    let max_user_quote = 98_000_000;

    let (adjusted_base, adjusted_quote) =
        match_deposit_ratios(vault_base, vault_quote, max_user_base, max_user_quote).unwrap();

    assert_eq!(adjusted_base, 490_000_000);
    assert_eq!(adjusted_quote, 98_000_000);
}

#[test]
fn gcd_of_known_pairs() {
    assert_eq!(gcd(50, 100), 50);
    assert_eq!(gcd(100, 50), 50);
    assert_eq!(gcd(12, 18), 6);
    assert_eq!(gcd(17, 5), 1);
    assert_eq!(gcd(0, 9), 9);
    assert_eq!(gcd(9, 0), 9);
    assert_eq!(gcd(0, 0), 0);
    assert_eq!(gcd(500_000_000, 100_000_000), 100_000_000);
}

#[test]
fn gcd_divides_both_arguments() {
    let pairs = [(84u64, 36u64), (1_000_000_007, 998_244_353), (u64::MAX, 3), (48, 180)];
    for (a, b) in pairs {
        let g = gcd(a, b);
        assert!(g > 0);
        assert_eq!(a % g, 0);
        assert_eq!(b % g, 0);
        assert_eq!(gcd(a / g, b / g), 1);
    }
}

#[test]
fn match_with_only_one_token_in_vault_passes_offer_through() {
    assert_eq!(match_deposit_ratios(10, 0, 7, 9), Ok((7, 9)));
    assert_eq!(match_deposit_ratios(0, 10, 7, 9), Ok((7, 9)));
}

#[test]
fn match_refused_when_cut_amounts_break_ratio() {
    // Vault 1:2; an offer of 51 base and 101 quote cuts to 50 base and 101 quote.
    assert_eq!(
        match_deposit_ratios(50, 100, 51, 101),
        Err(RootError::DepositRatioCheckFail)
    );
}

#[test]
fn match_cuts_base_to_quote_limit() {
    // Vault 3:2; 10 quote afford 5 units of (3, 2): 15 base, 10 quote.
    assert_eq!(match_deposit_ratios(300, 200, 100, 10), Ok((15, 10)));
}

#[test]
fn match_offer_in_vault_ratio_accepted_whole() {
    assert_eq!(match_deposit_ratios(6, 4, 30, 20), Ok((30, 20)));
    assert_eq!(match_deposit_ratios(7, 13, 70, 130), Ok((70, 130)));
}

#[test]
fn match_accepted_amounts_keep_ratio_and_limits() {
    let cases = [(50u64, 100u64, 51u64, 100u64), (300, 200, 100, 10), (7, 3, 1000, 1000)];
    for (vb, vq, ub, uq) in cases {
        if let Ok((a, b)) = match_deposit_ratios(vb, vq, ub, uq) {
            assert!(a <= ub && b <= uq);
            assert_eq!(a as u128 * vq as u128, b as u128 * vb as u128);
        }
    }
}
