use vstd::prelude::*;
use vstd::arithmetic::div_mod::{
    lemma_div_denominator, lemma_fundamental_div_mod, lemma_fundamental_div_mod_converse,
};

verus! {

/// Largest number of decimals removed before the final scaling step; with it
/// both remainders of the split product stay below 10^38.
pub const SPLIT_DECIMALS: u8 = 19;

/// Ten to the power `e`.
pub open spec fn pow10(e: nat) -> int
    decreases e,
{
    if e == 0 {
        1
    } else {
        10 * pow10((e - 1) as nat)
    }
}

/// The value of `amount` units of an asset with `decimals` decimals, priced at
/// `price` per whole unit: `amount * price / 10^decimals`, rounded down.
pub open spec fn scaled_value(amount: int, price: int, decimals: nat) -> int {
    (amount * price) / pow10(decimals)
}

/// The decimals removed in the first step of `scale_value`.
pub open spec fn first_split(decimals: nat) -> nat {
    if decimals <= SPLIT_DECIMALS {
        decimals
    } else {
        SPLIT_DECIMALS as nat
    }
}

/// Whether `scale_value` can compute the value within 128 bits: the product
/// with at most `SPLIT_DECIMALS` decimals removed must fit.
pub open spec fn scaled_value_fits(amount: int, price: int, decimals: nat) -> bool {
    (amount * price) / pow10(first_split(decimals)) <= u128::MAX
}

pub proof fn lemma_pow10_positive(e: nat)
    ensures
        pow10(e) > 0,
    decreases e,
{
    if e > 0 {
        lemma_pow10_positive((e - 1) as nat);
    }
}

pub proof fn lemma_pow10_monotonic(a: nat, b: nat)
    requires
        a <= b,
    ensures
        pow10(a) <= pow10(b),
    decreases b,
{
    if a < b {
        lemma_pow10_monotonic(a, (b - 1) as nat);
        lemma_pow10_positive((b - 1) as nat);
    }
}

/// Splitting both factors by `m` leaves a quotient made of three
/// non-negative parts, the last of which has a small product.
proof fn lemma_split_product(a: int, b: int, m: int)
    requires
        a >= 0,
        b >= 0,
        m > 0,
    ensures
        (a * b) / m == (a / m) * b + (a % m) * (b / m) + ((a % m) * (b % m)) / m,
        (a / m) * b >= 0,
        (a % m) * (b / m) >= 0,
        ((a % m) * (b % m)) / m >= 0,
        (a % m) * (b % m) < m * m,
{
    lemma_fundamental_div_mod(a, m);
    lemma_fundamental_div_mod(b, m);
    let qa = a / m;
    let ra = a % m;
    let qb = b / m;
    let rb = b % m;
    let small = ra * rb;
    lemma_fundamental_div_mod(small, m);
    assert(0 <= ra < m && 0 <= rb < m && qa >= 0 && qb >= 0);
    assert(small >= 0 && small < m * m) by (nonlinear_arith)
        requires
            0 <= ra < m,
            0 <= rb < m,
            small == ra * rb,
    ;
    assert(small / m >= 0) by (nonlinear_arith)
        requires
            small >= 0,
            m > 0,
    ;
    assert(qa * b >= 0 && ra * qb >= 0) by (nonlinear_arith)
        requires
            qa >= 0,
            b >= 0,
            ra >= 0,
            qb >= 0,
    ;
    assert(a * b == (qa * b + ra * qb + small / m) * m + small % m) by (nonlinear_arith)
        requires
            a == m * qa + ra,
            b == m * qb + rb,
            small == ra * rb,
            small == m * (small / m) + small % m,
    ;
    lemma_fundamental_div_mod_converse(a * b, m, qa * b + ra * qb + small / m, small % m);
}

/// `10^e` for an exponent small enough that the power fits in 64 bits.
fn power_of_ten(e: u8) -> (r: u128)
    requires
        e <= SPLIT_DECIMALS,
    ensures
        r == pow10(e as nat),
        r <= 10_000_000_000_000_000_000u128,
{
    proof {
        reveal_with_fuel(pow10, 20);
        lemma_pow10_monotonic(e as nat, SPLIT_DECIMALS as nat);
    }
    let mut r: u128 = 1;
    let mut i: u8 = 0;
    while i < e
        invariant
            i <= e <= SPLIT_DECIMALS,
            r == pow10(i as nat),
            pow10(e as nat) <= 10_000_000_000_000_000_000u128,
        decreases e - i,
    {
        proof {
            lemma_pow10_monotonic((i + 1) as nat, e as nat);
        }
        r = r * 10;
        i = i + 1;
    }
    r
}

/// Values `amount` units of an asset with `decimals` decimals at `price` per
/// whole unit, rounding down; `None` when the computation leaves 128 bits.
pub fn scale_value(amount: u128, price: u128, decimals: u8) -> (r: Option<u128>)
    ensures
        r is Some <==> scaled_value_fits(amount as int, price as int, decimals as nat),
        r matches Some(v) ==> v == scaled_value(amount as int, price as int, decimals as nat),
{
    let first: u8 = if decimals <= SPLIT_DECIMALS {
        decimals
    } else {
        SPLIT_DECIMALS
    };
    let m = power_of_ten(first);
    let ghost product = amount as int * price as int;
    proof {
        lemma_pow10_positive(first as nat);
        lemma_split_product(amount as int, price as int, m as int);
        assert((m as int) * (m as int) <= 100_000_000_000_000_000_000_000_000_000_000_000_000int)
            by (nonlinear_arith)
            requires
                0 < m <= 10_000_000_000_000_000_000u128,
        ;
    }
    let high = amount / m;
    let low = amount % m;
    let whole = match high.checked_mul(price) {
        Some(v) => v,
        None => return None,
    };
    let cross = match low.checked_mul(price / m) {
        Some(v) => v,
        None => return None,
    };
    let rest = low * (price % m) / m;
    let partial = match whole.checked_add(cross) {
        Some(v) => v,
        None => return None,
    };
    let mut value = match partial.checked_add(rest) {
        Some(v) => v,
        None => return None,
    };
    let remaining: u8 = decimals - first;
    let mut i: u8 = 0;
    while i < remaining
        invariant
            i <= remaining,
            remaining == decimals - first,
            product >= 0,
            value == product / pow10((first + i) as nat),
        decreases remaining - i,
    {
        proof {
            lemma_pow10_positive((first + i) as nat);
            lemma_div_denominator(product, pow10((first + i) as nat), 10);
            assert(pow10((first + i + 1) as nat) == pow10((first + i) as nat) * 10);
        }
        value = value / 10;
        i = i + 1;
    }
    Some(value)
}

} // verus!
