use vstd::prelude::*;
use scrypto::prelude::{CheckedDiv, Decimal, I192};

verus! {

/// Indivisible subunits (attos) in one whole unit of either currency.
pub const ATTOS_PER_UNIT: u128 = 1_000_000_000_000_000_000;

/// The amount in attos of a price given in whole coins.
pub open spec fn whole_coins(price: u32) -> int {
    price * ATTOS_PER_UNIT
}

/// Coins, in attos, bought with `paid` attos of the settlement asset when one
/// coin costs `rate` attos of it: paid / rate in fixed point, rounded toward zero.
pub open spec fn conversion(paid: int, rate: int) -> int {
    (paid * ATTOS_PER_UNIT) / rate
}

/// Relies on scrypto's `Decimal::checked_div` (radix-common): for attos `a` and
/// `b > 0` it returns `a * 10^18 / b` rounded toward zero. The quotient fits its
/// 192-bit range for any `u128` input, so the only failure is the conversion
/// back to `u128`.
#[verifier::external_body]
fn decimal_div(a: u128, b: u128) -> (r: Option<u128>)
    requires
        b > 0,
    ensures
        conversion(a as int, b as int) <= u128::MAX ==> r == Some(
            conversion(a as int, b as int) as u128,
        ),
        conversion(a as int, b as int) > u128::MAX ==> r is None,
{
    match Decimal::from_attos(I192::from(a)).checked_div(Decimal::from_attos(I192::from(b))) {
        Some(q) => u128::try_from(q.attos()).ok(),
        None => None,
    }
}

/// Converts `paid` attos of the settlement asset into coins at `rate` attos per
/// coin; `None` when the result does not fit.
pub fn convert_at_rate(paid: u128, rate: u128) -> (r: Option<u128>)
    requires
        rate > 0,
    ensures
        r == (if conversion(paid as int, rate as int) <= u128::MAX {
            Some(conversion(paid as int, rate as int) as u128)
        } else {
            None
        }),
{
    decimal_div(paid, rate)
}

/// The amount in attos of a price in whole coins.
pub fn coins_of_price(price: u32) -> (r: u128)
    ensures
        r == whole_coins(price),
{
    assert(price * ATTOS_PER_UNIT <= u128::MAX) by (nonlinear_arith)
        requires
            price <= u32::MAX,
    ;
    price as u128 * ATTOS_PER_UNIT
}

/// Conversion is linear up to rounding: twice the payment buys twice the coins,
/// or one atto more.
pub proof fn lemma_conversion_doubles(paid: int, rate: int)
    requires
        paid >= 0,
        rate > 0,
    ensures
        2 * conversion(paid, rate) <= conversion(2 * paid, rate) <= 2 * conversion(paid, rate) + 1,
{
    let q = conversion(paid, rate);
    let x = paid * ATTOS_PER_UNIT;
    assert(x >= 0) by (nonlinear_arith)
        requires
            paid >= 0,
            x == paid * ATTOS_PER_UNIT,
    ;
    assert((2 * paid) * ATTOS_PER_UNIT == 2 * x) by (nonlinear_arith)
        requires
            x == paid * ATTOS_PER_UNIT,
    ;
    let m = x % rate;
    assert(x == rate * q + m && 0 <= m < rate) by (nonlinear_arith)
        requires
            rate > 0,
            q == x / rate,
            m == x % rate,
    ;
    assert(2 * x == rate * (2 * q) + 2 * m) by (nonlinear_arith)
        requires
            x == rate * q + m,
    ;
    if 2 * m < rate {
        lemma_fundamental_quot(2 * x, rate, 2 * q, 2 * m);
    } else {
        assert(2 * x == rate * (2 * q + 1) + (2 * m - rate)) by (nonlinear_arith)
            requires
                2 * x == rate * (2 * q) + 2 * m,
        ;
        lemma_fundamental_quot(2 * x, rate, 2 * q + 1, 2 * m - rate);
    }
}

/// If `x == rate * q + m` with `0 <= m < rate`, then `q` is `x / rate`.
proof fn lemma_fundamental_quot(x: int, rate: int, q: int, m: int)
    requires
        rate > 0,
        0 <= m < rate,
        x == rate * q + m,
    ensures
        x / rate == q,
{
    assert(x == q * rate + m) by (nonlinear_arith)
        requires
            x == rate * q + m,
    ;
    vstd::arithmetic::div_mod::lemma_fundamental_div_mod_converse(x, rate, q, m);
}

} // verus!
