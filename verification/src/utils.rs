use vstd::prelude::*;
use vstd::arithmetic::div_mod::*;
use vstd::arithmetic::mul::*;

use crate::errors::RootError;

verus! {

/// One side of a two-sided quote.
#[derive(Debug, Clone, Copy, PartialEq, Eq, Structural)]
pub struct OrderParams {
    pub price_in_ticks: u64,
    pub size_in_base_lots: u64,
    pub strictly_post_only: bool,
    pub is_bid: bool,
}

/// Greatest common divisor, defined by Euclid's recurrence.
pub open spec fn euclid_gcd(a: nat, b: nat) -> nat
    decreases b,
{
    if b == 0 {
        a
    } else {
        euclid_gcd(b, a % b)
    }
}

/// `d` is a positive divisor of `x`.
pub open spec fn divides(d: nat, x: nat) -> bool {
    d > 0 && x % d == 0
}

proof fn lemma_divides_combination(d: nat, x: nat, y: nat, k: nat)
    requires
        divides(d, x),
        divides(d, y),
    ensures
        divides(d, k * x + y),
{
    lemma_fundamental_div_mod(x as int, d as int);
    lemma_fundamental_div_mod(y as int, d as int);
    let qx = x / d;
    let qy = y / d;
    assert(k * x + y == (k * qx + qy) * d) by (nonlinear_arith)
        requires
            x == d * qx,
            y == d * qy,
    ;
    lemma_mod_multiples_basic((k * qx + qy) as int, d as int);
}

proof fn lemma_divides_difference(d: nat, x: nat, y: nat, k: nat)
    requires
        divides(d, x),
        divides(d, k * x + y),
    ensures
        divides(d, y),
{
    lemma_fundamental_div_mod(x as int, d as int);
    lemma_fundamental_div_mod((k * x + y) as int, d as int);
    let qx = x / d;
    let qs = (k * x + y) / d;
    assert(y == (qs - k * qx) * d) by (nonlinear_arith)
        requires
            x == d * qx,
            k * x + y == d * qs,
    ;
    lemma_mod_multiples_basic(qs - k * qx, d as int);
}

/// Euclid's recurrence computes the greatest common divisor: the result
/// divides both arguments, and every common divisor of the arguments divides
/// it. It is positive unless both arguments are zero.
pub proof fn lemma_gcd_is_greatest_common_divisor(a: nat, b: nat)
    ensures
        (a > 0 || b > 0) ==> euclid_gcd(a, b) > 0,
        euclid_gcd(a, b) > 0 ==> divides(euclid_gcd(a, b), a) && divides(euclid_gcd(a, b), b),
        forall|d: nat| divides(d, a) && divides(d, b) ==> #[trigger] divides(d, euclid_gcd(a, b)),
    decreases b,
{
    if b == 0 {
        if a > 0 {
            lemma_mod_self_0(a as int);
        }
        assert forall|d: nat| divides(d, a) && divides(d, b) implies #[trigger] divides(
            d,
            euclid_gcd(a, b),
        ) by {}
    } else {
        let r = a % b;
        lemma_gcd_is_greatest_common_divisor(b, r);
        lemma_fundamental_div_mod(a as int, b as int);
        lemma_mod_pos_bound(a as int, b as int);
        let q = a / b;
        assert(a == q * b + r) by (nonlinear_arith)
            requires
                a == b * q + r,
        ;
        let g = euclid_gcd(a, b);
        assert(g == euclid_gcd(b, r));
        if g > 0 {
            lemma_divides_combination(g, b, r, q);
        }
        assert forall|d: nat| divides(d, a) && divides(d, b) implies #[trigger] divides(d, g) by {
            lemma_divides_difference(d, b, r, q);
        }
    }
}

/// Greatest common divisor of `a` and `b` by Euclid's algorithm.
pub fn gcd(a: u64, b: u64) -> (g: u64)
    ensures
        g == euclid_gcd(a as nat, b as nat),
{
    let mut a = a;
    let mut b = b;
    let ghost a0 = a;
    let ghost b0 = b;
    while b != 0
        invariant
            euclid_gcd(a as nat, b as nat) == euclid_gcd(a0 as nat, b0 as nat),
        decreases b,
    {
        let temp = b;
        b = a % b;
        a = temp;
    }
    a
}


/// Smaller of two integers.
pub open spec fn min_int(x: int, y: int) -> int {
    if x <= y {
        x
    } else {
        y
    }
}

/// Base part of the vault's ratio in lowest terms.
pub open spec fn ratio_base(vault_base: u64, vault_quote: u64) -> nat {
    vault_base as nat / euclid_gcd(vault_base as nat, vault_quote as nat)
}

/// Quote part of the vault's ratio in lowest terms.
pub open spec fn ratio_quote(vault_base: u64, vault_quote: u64) -> nat {
    vault_quote as nat / euclid_gcd(vault_base as nat, vault_quote as nat)
}

/// Whole multiples of the base ratio part that the user's quote limit affords.
pub open spec fn base_for_quote_limit(vb: u64, vq: u64, user_quote: u64) -> nat {
    (user_quote as nat / ratio_quote(vb, vq)) * ratio_base(vb, vq)
}

/// Whole multiples of the quote ratio part that the user's base limit affords.
pub open spec fn quote_for_base_limit(vb: u64, vq: u64, user_base: u64) -> nat {
    (user_base as nat / ratio_base(vb, vq)) * ratio_quote(vb, vq)
}

/// Base amount accepted from a user into a non-empty vault.
pub open spec fn matched_base(vb: u64, vq: u64, user_base: u64, user_quote: u64) -> int {
    min_int(base_for_quote_limit(vb, vq, user_quote) as int, user_base as int)
}

/// Quote amount accepted from a user into a non-empty vault.
pub open spec fn matched_quote(vb: u64, vq: u64, user_base: u64, user_quote: u64) -> int {
    min_int(quote_for_base_limit(vb, vq, user_base) as int, user_quote as int)
}

/// The vault holds no base or no quote tokens yet.
pub open spec fn vault_is_unfunded(vb: u64, vq: u64) -> bool {
    vb == 0 || vq == 0
}

/// Every intermediate product of the matching fits in a `u64`.
pub open spec fn matching_fits_u64(vb: u64, vq: u64, user_base: u64, user_quote: u64) -> bool {
    vault_is_unfunded(vb, vq) || {
        &&& base_for_quote_limit(vb, vq, user_quote) <= u64::MAX
        &&& quote_for_base_limit(vb, vq, user_base) <= u64::MAX
        &&& matched_base(vb, vq, user_base, user_quote) * vq <= u64::MAX
        &&& matched_quote(vb, vq, user_base, user_quote) * vb <= u64::MAX
    }
}

/// The matched amounts keep the vault's base:quote ratio exactly.
pub open spec fn matching_keeps_ratio(vb: u64, vq: u64, user_base: u64, user_quote: u64) -> bool {
    matched_base(vb, vq, user_base, user_quote) * vq == matched_quote(vb, vq, user_base, user_quote)
        * vb
}

/// What `match_deposit_ratios` returns.
pub open spec fn matched_deposits(vb: u64, vq: u64, user_base: u64, user_quote: u64) -> Result<
    (u64, u64),
    RootError,
> {
    if vault_is_unfunded(vb, vq) {
        Ok((user_base, user_quote))
    } else if matching_keeps_ratio(vb, vq, user_base, user_quote) {
        Ok(
            (
                matched_base(vb, vq, user_base, user_quote) as u64,
                matched_quote(vb, vq, user_base, user_quote) as u64,
            ),
        )
    } else {
        Err(RootError::DepositRatioCheckFail)
    }
}

proof fn lemma_ratio_parts_positive(vb: u64, vq: u64)
    requires
        vb > 0,
        vq > 0,
    ensures
        euclid_gcd(vb as nat, vq as nat) > 0,
        ratio_base(vb, vq) > 0,
        ratio_quote(vb, vq) > 0,
{
    let g = euclid_gcd(vb as nat, vq as nat);
    lemma_gcd_is_greatest_common_divisor(vb as nat, vq as nat);
    if g > vb {
        lemma_small_mod(vb as nat, g);
    }
    if g > vq {
        lemma_small_mod(vq as nat, g);
    }
    lemma_div_by_self(g as int);
    lemma_div_is_ordered(g as int, vb as int, g as int);
    lemma_div_is_ordered(g as int, vq as int, g as int);
}

/// Adjusts a user's deposit limits to the ratio of the tokens already in the
/// vault. An unfunded vault accepts the limits as they are; otherwise each
/// side is cut to whole multiples of the vault's ratio in lowest terms that
/// the other side's limit affords, and the result is refused when the two
/// cut amounts do not keep the vault's ratio.
pub fn match_deposit_ratios(
    current_vault_base_token: u64,
    current_vault_quote_token: u64,
    max_user_deposit_base_token: u64,
    max_user_deposit_quote_token: u64,
) -> (r: Result<(u64, u64), RootError>)
    requires
        matching_fits_u64(
            current_vault_base_token,
            current_vault_quote_token,
            max_user_deposit_base_token,
            max_user_deposit_quote_token,
        ),
    ensures
        r == matched_deposits(
            current_vault_base_token,
            current_vault_quote_token,
            max_user_deposit_base_token,
            max_user_deposit_quote_token,
        ),
{
    if current_vault_base_token == 0 || current_vault_quote_token == 0 {
        return Ok((max_user_deposit_base_token, max_user_deposit_quote_token));
    }
    let g = gcd(current_vault_base_token, current_vault_quote_token);
    proof {
        lemma_ratio_parts_positive(current_vault_base_token, current_vault_quote_token);
    }
    let proportion_a = current_vault_base_token / g;
    let proportion_b = current_vault_quote_token / g;

    let max_token_a = (max_user_deposit_quote_token / proportion_b) * proportion_a;
    let max_token_a = if max_token_a <= max_user_deposit_base_token {
        max_token_a
    } else {
        max_user_deposit_base_token
    };

    let max_token_b = (max_user_deposit_base_token / proportion_a) * proportion_b;
    let max_token_b = if max_token_b <= max_user_deposit_quote_token {
        max_token_b
    } else {
        max_user_deposit_quote_token
    };

    if max_token_a * current_vault_quote_token == max_token_b * current_vault_base_token {
        Ok((max_token_a, max_token_b))
    } else {
        Err(RootError::DepositRatioCheckFail)
    }
}


/// Whether `match_deposit_ratios` can match these amounts without leaving
/// 64 bits (its precondition).
pub fn matching_fits(
    current_vault_base_token: u64,
    current_vault_quote_token: u64,
    max_user_deposit_base_token: u64,
    max_user_deposit_quote_token: u64,
) -> (fits: bool)
    ensures
        fits == matching_fits_u64(
            current_vault_base_token,
            current_vault_quote_token,
            max_user_deposit_base_token,
            max_user_deposit_quote_token,
        ),
{
    if current_vault_base_token == 0 || current_vault_quote_token == 0 {
        return true;
    }
    let g = gcd(current_vault_base_token, current_vault_quote_token);
    proof {
        lemma_ratio_parts_positive(current_vault_base_token, current_vault_quote_token);
    }
    let proportion_a = current_vault_base_token / g;
    let proportion_b = current_vault_quote_token / g;
    let units_for_quote = max_user_deposit_quote_token / proportion_b;
    let units_for_base = max_user_deposit_base_token / proportion_a;
    proof {
        lemma_mul_upper_bound(
            units_for_quote as int,
            u64::MAX as int,
            proportion_a as int,
            u64::MAX as int,
        );
        lemma_mul_upper_bound(
            units_for_base as int,
            u64::MAX as int,
            proportion_b as int,
            u64::MAX as int,
        );
    }
    let base_cap: u128 = (units_for_quote as u128) * (proportion_a as u128);
    let quote_cap: u128 = (units_for_base as u128) * (proportion_b as u128);
    if base_cap > u64::MAX as u128 || quote_cap > u64::MAX as u128 {
        return false;
    }
    let token_a: u128 = if base_cap <= max_user_deposit_base_token as u128 {
        base_cap
    } else {
        max_user_deposit_base_token as u128
    };
    let token_b: u128 = if quote_cap <= max_user_deposit_quote_token as u128 {
        quote_cap
    } else {
        max_user_deposit_quote_token as u128
    };
    proof {
        lemma_mul_upper_bound(
            token_a as int,
            u64::MAX as int,
            current_vault_quote_token as int,
            u64::MAX as int,
        );
        lemma_mul_upper_bound(
            token_b as int,
            u64::MAX as int,
            current_vault_base_token as int,
            u64::MAX as int,
        );
    }
    token_a * (current_vault_quote_token as u128) <= u64::MAX as u128 && token_b * (
    current_vault_base_token as u128) <= u64::MAX as u128
}

/// Matching never accepts more than the user offered, and a match accepted
/// into a funded vault keeps the vault's base:quote ratio exactly.
pub proof fn lemma_matched_deposits_within_limits(vb: u64, vq: u64, user_base: u64, user_quote: u64)
    ensures
        matched_deposits(vb, vq, user_base, user_quote) matches Ok((a, b)) ==> {
            &&& a <= user_base
            &&& b <= user_quote
            &&& !vault_is_unfunded(vb, vq) ==> a * vq == b * vb
        },
{
}

/// Scaling both arguments scales their greatest common divisor.
pub proof fn lemma_gcd_scales(k: nat, x: nat, y: nat)
    requires
        k > 0,
    ensures
        euclid_gcd(k * x, k * y) == k * euclid_gcd(x, y),
    decreases y,
{
    if y == 0 {
        assert(k * y == 0) by (nonlinear_arith)
            requires
                y == 0,
        ;
    } else {
        let r = x % y;
        let q = x / y;
        lemma_fundamental_div_mod(x as int, y as int);
        lemma_mod_pos_bound(x as int, y as int);
        assert(k * y > 0 && k * x == q * (k * y) + k * r && 0 <= k * r < k * y) by (nonlinear_arith)
            requires
                k > 0,
                y > 0,
                x == y * q + r,
                0 <= r < y,
        ;
        lemma_fundamental_div_mod_converse_mod((k * x) as int, (k * y) as int, q as int, (k * r) as int);
        assert((k * x) % (k * y) == k * r);
        lemma_gcd_scales(k, y, r);
    }
}

/// The vault's ratio in lowest terms has coprime parts.
pub proof fn lemma_ratio_parts_coprime(vb: u64, vq: u64)
    requires
        !vault_is_unfunded(vb, vq),
    ensures
        euclid_gcd(ratio_base(vb, vq), ratio_quote(vb, vq)) == 1,
        ratio_base(vb, vq) * euclid_gcd(vb as nat, vq as nat) == vb,
        ratio_quote(vb, vq) * euclid_gcd(vb as nat, vq as nat) == vq,
{
    let g = euclid_gcd(vb as nat, vq as nat);
    lemma_ratio_parts_positive(vb, vq);
    lemma_gcd_is_greatest_common_divisor(vb as nat, vq as nat);
    let pa = ratio_base(vb, vq);
    let pb = ratio_quote(vb, vq);
    lemma_fundamental_div_mod(vb as int, g as int);
    lemma_fundamental_div_mod(vq as int, g as int);
    assert(g * pa == vb && g * pb == vq);
    lemma_gcd_scales(g, pa, pb);
    let c = euclid_gcd(pa, pb);
    assert(c == 1) by (nonlinear_arith)
        requires
            g > 0,
            g == g * c,
    ;
    assert(pa * g == vb && pb * g == vq) by (nonlinear_arith)
        requires
            g * pa == vb,
            g * pb == vq,
    ;
}

/// Euclid's lemma for coprime `p` and `q`: if `p` divides `x * q` then it divides `x`.
proof fn lemma_coprime_divides(p: nat, q: nat, x: nat, y: nat)
    requires
        p > 0,
        euclid_gcd(p, q) == 1,
        x * q == y * p,
    ensures
        x % p == 0,
{
    if x > 0 {
        lemma_gcd_scales(x, p, q);
        lemma_gcd_is_greatest_common_divisor(x * p, x * q);
        assert(x * p == p * x && x * q == p * y) by (nonlinear_arith)
            requires
                x * q == y * p,
        ;
        lemma_mod_multiples_basic(x as int, p as int);
        lemma_mod_multiples_basic(y as int, p as int);
        assert((x * p) % p == 0);
        assert((x * q) % p == 0);
        assert(divides(p, x * p) && divides(p, x * q));
        assert(divides(p, euclid_gcd(x * p, x * q)));
        assert(x * 1 == x);
    } else {
        lemma_mod_self_0(p as int);
        lemma_small_mod(0, p);
    }
}

/// A user who offers tokens in exactly the vault's ratio has the whole offer
/// accepted.
pub proof fn lemma_offer_in_vault_ratio_accepted_whole(
    vb: u64,
    vq: u64,
    user_base: u64,
    user_quote: u64,
)
    requires
        !vault_is_unfunded(vb, vq),
        user_base * vq == user_quote * vb,
    ensures
        matched_deposits(vb, vq, user_base, user_quote) == Ok::<(u64, u64), RootError>(
            (user_base, user_quote),
        ),
{
    let g = euclid_gcd(vb as nat, vq as nat);
    let pa = ratio_base(vb, vq);
    let pb = ratio_quote(vb, vq);
    lemma_ratio_parts_positive(vb, vq);
    lemma_ratio_parts_coprime(vb, vq);
    let ub = user_base as nat;
    let uq = user_quote as nat;
    assert(ub * pb == uq * pa) by (nonlinear_arith)
        requires
            g > 0,
            ub * (pb * g) == uq * (pa * g),
    ;
    lemma_coprime_divides(pa, pb, ub, uq);
    lemma_fundamental_div_mod(ub as int, pa as int);
    let m = ub / pa;
    assert(ub == m * pa);
    assert(uq == m * pb) by (nonlinear_arith)
        requires
            pa > 0,
            ub == m * pa,
            ub * pb == uq * pa,
    ;
    assert(uq / pb == m) by {
        lemma_div_multiples_vanish(m as int, pb as int);
        assert(pb * m == m * pb) by (nonlinear_arith);
    }
    assert(ub / pa == m);
    assert(base_for_quote_limit(vb, vq, user_quote) == ub);
    assert(quote_for_base_limit(vb, vq, user_base) == uq);
}


proof fn lemma_mutual_multiples_equal(x: nat, y: nat)
    requires
        x > 0,
        y > 0,
        x % y == 0,
        y % x == 0,
    ensures
        x == y,
{
    lemma_fundamental_div_mod(x as int, y as int);
    lemma_fundamental_div_mod(y as int, x as int);
    let q = x / y;
    let r = y / x;
    assert(x >= y) by (nonlinear_arith)
        requires
            x == y * q,
            x > 0,
            y > 0,
    ;
    assert(y >= x) by (nonlinear_arith)
        requires
            y == x * r,
            x > 0,
            y > 0,
    ;
}

/// A vault's ratio has only one form in lowest terms.
proof fn lemma_lowest_terms_unique(vb: u64, vq: u64, pa: nat, pb: nat)
    requires
        !vault_is_unfunded(vb, vq),
        pa > 0,
        pb > 0,
        pa * vq == pb * vb,
        euclid_gcd(pa, pb) == 1,
    ensures
        ratio_base(vb, vq) == pa,
        ratio_quote(vb, vq) == pb,
{
    lemma_ratio_parts_positive(vb, vq);
    lemma_ratio_parts_coprime(vb, vq);
    let g = euclid_gcd(vb as nat, vq as nat);
    let ra = ratio_base(vb, vq);
    let rq = ratio_quote(vb, vq);
    assert(pa * rq == pb * ra) by (nonlinear_arith)
        requires
            g > 0,
            ra * g == vb,
            rq * g == vq,
            pa * vq == pb * vb,
    ;
    assert(ra * pb == rq * pa) by (nonlinear_arith)
        requires
            pa * rq == pb * ra,
    ;
    lemma_coprime_divides(pa, pb, ra, rq);
    lemma_coprime_divides(ra, rq, pa, pb);
    lemma_mutual_multiples_equal(pa, ra);
    assert(pb == rq) by (nonlinear_arith)
        requires
            pa == ra,
            pa > 0,
            pa * rq == pb * ra,
    ;
}

/// Matching into a funded vault whose base:quote ratio in lowest terms is
/// `pa:pb` accepts whole units of that ratio: as many units as the scarcer
/// limit affords, `k = min(user_base / pa, user_quote / pb)`, giving
/// `(k * pa, k * pb)`. It is refused exactly when the two limits afford
/// different numbers of units and the scarcer limit is not itself a whole
/// number of units.
pub proof fn lemma_matching_accepts_whole_units(
    vb: u64,
    vq: u64,
    user_base: u64,
    user_quote: u64,
    pa: nat,
    pb: nat,
)
    requires
        !vault_is_unfunded(vb, vq),
        pa > 0,
        pb > 0,
        pa * vq == pb * vb,
        euclid_gcd(pa, pb) == 1,
    ensures
        ({
            let ka = user_base as nat / pa;
            let kb = user_quote as nat / pb;
            let k = if ka <= kb {
                ka
            } else {
                kb
            };
            let refused = (kb < ka && user_quote as nat % pb != 0) || (ka < kb && user_base as nat
                % pa != 0);
            matched_deposits(vb, vq, user_base, user_quote) == if refused {
                Err::<(u64, u64), RootError>(RootError::DepositRatioCheckFail)
            } else {
                Ok::<(u64, u64), RootError>(((k * pa) as u64, (k * pb) as u64))
            }
        }),
{
    lemma_lowest_terms_unique(vb, vq, pa, pb);
    let u = user_base as nat;
    let w = user_quote as nat;
    let ka = u / pa;
    let kb = w / pb;
    let ru = u % pa;
    let rw = w % pb;
    lemma_fundamental_div_mod(u as int, pa as int);
    lemma_mod_pos_bound(u as int, pa as int);
    lemma_fundamental_div_mod(w as int, pb as int);
    lemma_mod_pos_bound(w as int, pb as int);
    assert(base_for_quote_limit(vb, vq, user_quote) == kb * pa);
    assert(quote_for_base_limit(vb, vq, user_base) == ka * pb);
    let a = matched_base(vb, vq, user_base, user_quote);
    let b = matched_quote(vb, vq, user_base, user_quote);
    assert(ka * pa <= u && u < (ka + 1) * pa) by (nonlinear_arith)
        requires
            u == pa * ka + ru,
            0 <= ru < pa,
    ;
    assert(kb * pb <= w && w < (kb + 1) * pb) by (nonlinear_arith)
        requires
            w == pb * kb + rw,
            0 <= rw < pb,
    ;
    if ka == kb {
        assert(a == ka * pa && b == ka * pb);
        assert(a * vq == b * vb) by (nonlinear_arith)
            requires
                a == ka * pa,
                b == ka * pb,
                pa * vq == pb * vb,
        ;
    } else if kb < ka {
        assert(kb * pa <= u) by (nonlinear_arith)
            requires
                kb < ka,
                ka * pa <= u,
                pa > 0,
        ;
        assert(ka * pb > w) by (nonlinear_arith)
            requires
                kb + 1 <= ka,
                w < (kb + 1) * pb,
                pb > 0,
        ;
        assert(a == kb * pa && b == w);
        assert(a * vq == (kb * pb) * vb) by (nonlinear_arith)
            requires
                a == kb * pa,
                pa * vq == pb * vb,
        ;
        assert(((kb * pb) * vb == w * vb) == (kb * pb == w)) by (nonlinear_arith)
            requires
                vb > 0,
        ;
        assert((kb * pb == w) == (rw == 0)) by (nonlinear_arith)
            requires
                w == pb * kb + rw,
        ;
    } else {
        assert(ka * pb <= w) by (nonlinear_arith)
            requires
                ka < kb,
                kb * pb <= w,
                pb > 0,
        ;
        assert(kb * pa > u) by (nonlinear_arith)
            requires
                ka + 1 <= kb,
                u < (ka + 1) * pa,
                pa > 0,
        ;
        assert(a == u && b == ka * pb);
        assert(b * vb == (ka * pa) * vq) by (nonlinear_arith)
            requires
                b == ka * pb,
                pa * vq == pb * vb,
        ;
        assert(((ka * pa) * vq == u * vq) == (ka * pa == u)) by (nonlinear_arith)
            requires
                vq > 0,
        ;
        assert((ka * pa == u) == (ru == 0)) by (nonlinear_arith)
            requires
                u == pa * ka + ru,
        ;
    }
}

} // verus!
