use vstd::prelude::*;

use crate::errors::BondingCurveError;
use crate::state::BondingCurve;
use crate::state::BPS_DENOMINATOR;
use crate::state::CREATOR_FEE_SHARE_BPS;
use crate::state::FEE_RATE_BPS;
use vstd::arithmetic::div_mod::lemma_div_is_ordered;
use vstd::arithmetic::div_mod::lemma_div_multiples_vanish;
use vstd::arithmetic::div_mod::lemma_multiply_divide_lt;
use vstd::arithmetic::mul::lemma_mul_inequality;
use vstd::arithmetic::mul::lemma_mul_is_commutative;
use vstd::arithmetic::mul::lemma_mul_strict_inequality;
use vstd::arithmetic::mul::lemma_mul_upper_bound;

verus! {

/// The base side of the price curve: virtual plus real base reserves.
pub open spec fn base_total(c: BondingCurve) -> int {
    c.virtual_base_reserves + c.real_base_reserves
}

/// The token side of the price curve: virtual plus real token reserves.
pub open spec fn token_total(c: BondingCurve) -> int {
    c.virtual_token_reserves + c.real_token_reserves
}

/// The curve's constant product `k`, taken over virtual plus real
/// reserves on both sides.
pub open spec fn constant_product(c: BondingCurve) -> int {
    base_total(c) * token_total(c)
}

/// Whether a buy of `base_amount_in` can be priced within 64-bit
/// reserves: the token total and the grown base total must both fit.
pub open spec fn buy_fits(c: BondingCurve, base_amount_in: int) -> bool {
    &&& token_total(c) <= u64::MAX
    &&& base_total(c) + base_amount_in <= u64::MAX
}

/// Whether a sell of `token_amount_in` can be priced within 64-bit
/// reserves: the grown token total must fit.
pub open spec fn sell_fits(c: BondingCurve, token_amount_in: int) -> bool {
    token_total(c) + token_amount_in <= u64::MAX
}

/// Tokens released by a buy of `base_amount_in`, before fees.
///
/// The base total grows by the paid amount; the token total drops to
/// `k / new_base_total`, rounded down, a rounding that keeps value in
/// the curve; the difference leaves the curve toward the trader.
pub open spec fn buy_gross_out(c: BondingCurve, base_amount_in: int) -> int {
    token_total(c) - constant_product(c) / (base_total(c) + base_amount_in)
}

/// Base currency released by a sell of `token_amount_in`, before
/// fees: the same formula with the two sides' roles reversed.
pub open spec fn sell_gross_out(c: BondingCurve, token_amount_in: int) -> int {
    base_total(c) - constant_product(c) / (token_total(c) + token_amount_in)
}

/// The protocol's fee on a trade output, at `FEE_RATE_BPS`.
pub open spec fn fee_of(amount: int) -> int {
    amount * FEE_RATE_BPS / (BPS_DENOMINATOR as int)
}

/// The creator's share of one collected fee, at `CREATOR_FEE_SHARE_BPS`.
pub open spec fn creator_share_of(fee: int) -> int {
    fee * CREATOR_FEE_SHARE_BPS / (BPS_DENOMINATOR as int)
}

/// What a buyer receives: the gross formula output, less the fee.
pub open spec fn buy_net_out(c: BondingCurve, base_amount_in: int) -> int {
    buy_gross_out(c, base_amount_in) - fee_of(buy_gross_out(c, base_amount_in))
}

/// What a seller receives: the gross formula output, less the fee.
pub open spec fn sell_net_out(c: BondingCurve, token_amount_in: int) -> int {
    sell_gross_out(c, token_amount_in) - fee_of(sell_gross_out(c, token_amount_in))
}

/// A buy's gross output is at least one token and at most the token
/// total: the divisor grows strictly, so the new token total falls,
/// but the quotient never drops below zero.
pub proof fn lemma_buy_gross_out_bounds(c: BondingCurve, base_amount_in: int)
    requires
        c.wf(),
        base_amount_in >= 1,
        buy_fits(c, base_amount_in),
    ensures
        1 <= buy_gross_out(c, base_amount_in) <= token_total(c),
{
    let bt = base_total(c);
    let tt = token_total(c);
    let k = constant_product(c);
    let nbt = bt + base_amount_in;
    lemma_mul_strict_inequality(bt, nbt, tt);
    lemma_multiply_divide_lt(k, nbt, tt);
    lemma_mul_upper_bound(0, bt, 0, tt);
    lemma_div_is_ordered(0, k, nbt);
}

/// A sell's gross output is at least one base unit and at most the
/// base total, by the same argument with the sides swapped.
pub proof fn lemma_sell_gross_out_bounds(c: BondingCurve, token_amount_in: int)
    requires
        c.wf(),
        token_amount_in >= 1,
        sell_fits(c, token_amount_in),
    ensures
        1 <= sell_gross_out(c, token_amount_in) <= base_total(c),
{
    let bt = base_total(c);
    let tt = token_total(c);
    let k = constant_product(c);
    let ntt = tt + token_amount_in;
    lemma_mul_strict_inequality(tt, ntt, bt);
    lemma_mul_is_commutative(bt, tt);
    lemma_multiply_divide_lt(k, ntt, bt);
    lemma_mul_upper_bound(0, bt, 0, tt);
    lemma_div_is_ordered(0, k, ntt);
}

/// The fee never exceeds the amount it is taken from, since the rate
/// is at most one whole: `amount * rate_bps / 10_000 <= amount`.
pub proof fn lemma_fee_within_amount(amount: int)
    requires
        amount >= 0,
    ensures
        0 <= fee_of(amount) <= amount,
        0 <= creator_share_of(amount) <= amount,
{
    let d = BPS_DENOMINATOR as int;
    lemma_mul_inequality(FEE_RATE_BPS as int, d, amount);
    lemma_mul_inequality(CREATOR_FEE_SHARE_BPS as int, d, amount);
    lemma_mul_is_commutative(amount, FEE_RATE_BPS as int);
    lemma_mul_is_commutative(amount, CREATOR_FEE_SHARE_BPS as int);
    lemma_mul_is_commutative(amount, d);
    lemma_div_is_ordered(amount * (FEE_RATE_BPS as int), d * amount, d);
    lemma_div_is_ordered(amount * (CREATOR_FEE_SHARE_BPS as int), d * amount, d);
    lemma_div_multiples_vanish(amount, d);
    lemma_mul_upper_bound(0, amount, 0, FEE_RATE_BPS as int);
    lemma_mul_upper_bound(0, amount, 0, CREATOR_FEE_SHARE_BPS as int);
    lemma_div_is_ordered(0, amount * (FEE_RATE_BPS as int), d);
    lemma_div_is_ordered(0, amount * (CREATOR_FEE_SHARE_BPS as int), d);
}

/// Computes the protocol fee on a trade output.
pub fn fee_amount(amount: u64) -> (r: u64)
    ensures
        r == fee_of(amount as int),
        r <= amount,
{
    proof {
        lemma_fee_within_amount(amount as int);
        lemma_mul_upper_bound(
            amount as int,
            u64::MAX as int,
            FEE_RATE_BPS as int,
            BPS_DENOMINATOR as int,
        );
    }
    (((amount as u128) * (FEE_RATE_BPS as u128)) / (BPS_DENOMINATOR as u128)) as u64
}

/// Computes the creator's share of a collected fee.
pub fn creator_share(fee: u64) -> (r: u64)
    ensures
        r == creator_share_of(fee as int),
        r <= fee,
{
    proof {
        lemma_fee_within_amount(fee as int);
        lemma_mul_upper_bound(
            fee as int,
            u64::MAX as int,
            CREATOR_FEE_SHARE_BPS as int,
            BPS_DENOMINATOR as int,
        );
    }
    (((fee as u128) * (CREATOR_FEE_SHARE_BPS as u128)) / (BPS_DENOMINATOR as u128)) as u64
}

/// Computes the gross token output of a buy, or reports that a 64-bit
/// sum would overflow. The 128-bit intermediate product of two 64-bit
/// totals cannot itself overflow.
pub fn buy_quote(c: &BondingCurve, base_amount_in: u64) -> (r: Result<u64, BondingCurveError>)
    requires
        c.wf(),
        base_amount_in >= 1,
    ensures
        !buy_fits(*c, base_amount_in as int) ==> r == Err::<u64, BondingCurveError>(
            BondingCurveError::ArithmeticOverflow,
        ),
        buy_fits(*c, base_amount_in as int) ==> r is Ok && r->Ok_0 == buy_gross_out(
            *c,
            base_amount_in as int,
        ),
{
    let token_total_now = match c.virtual_token_reserves.checked_add(c.real_token_reserves) {
        Some(v) => v,
        None => {
            return Err(BondingCurveError::ArithmeticOverflow);
        },
    };
    let base_total_now = c.virtual_base_reserves + c.real_base_reserves;
    let new_base_total = match base_total_now.checked_add(base_amount_in) {
        Some(v) => v,
        None => {
            return Err(BondingCurveError::ArithmeticOverflow);
        },
    };
    proof {
        lemma_mul_upper_bound(
            base_total_now as int,
            u64::MAX as int,
            token_total_now as int,
            u64::MAX as int,
        );
        lemma_buy_gross_out_bounds(*c, base_amount_in as int);
    }
    let k: u128 = (base_total_now as u128) * (token_total_now as u128);
    let new_token_total: u128 = k / (new_base_total as u128);
    assert(new_token_total < token_total_now);
    Ok(token_total_now - (new_token_total as u64))
}

/// Computes the gross base-currency output of a sell, or reports that
/// a 64-bit sum would overflow.
pub fn sell_quote(c: &BondingCurve, token_amount_in: u64) -> (r: Result<u64, BondingCurveError>)
    requires
        c.wf(),
        token_amount_in >= 1,
    ensures
        !sell_fits(*c, token_amount_in as int) ==> r == Err::<u64, BondingCurveError>(
            BondingCurveError::ArithmeticOverflow,
        ),
        sell_fits(*c, token_amount_in as int) ==> r is Ok && r->Ok_0 == sell_gross_out(
            *c,
            token_amount_in as int,
        ),
{
    let token_total_now = match c.virtual_token_reserves.checked_add(c.real_token_reserves) {
        Some(v) => v,
        None => {
            return Err(BondingCurveError::ArithmeticOverflow);
        },
    };
    let new_token_total = match token_total_now.checked_add(token_amount_in) {
        Some(v) => v,
        None => {
            return Err(BondingCurveError::ArithmeticOverflow);
        },
    };
    let base_total_now = c.virtual_base_reserves + c.real_base_reserves;
    proof {
        lemma_mul_upper_bound(
            base_total_now as int,
            u64::MAX as int,
            token_total_now as int,
            u64::MAX as int,
        );
        lemma_sell_gross_out_bounds(*c, token_amount_in as int);
    }
    let k: u128 = (base_total_now as u128) * (token_total_now as u128);
    let new_base_total: u128 = k / (new_token_total as u128);
    assert(new_base_total < base_total_now);
    Ok(base_total_now - (new_base_total as u64))
}

} // verus!
