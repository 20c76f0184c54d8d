//! The pricing rules of the pool: the fee taken from a swap's input, the
//! constant-product output of a swap, and the pro-rata share of a withdrawal.
//!
//! Every product is formed in 128 bits, so that no step can wrap before the
//! bound on its result is tested.

use vstd::prelude::*;
use vstd::arithmetic::div_mod::{
    lemma_div_is_ordered,
    lemma_div_multiples_vanish,
    lemma_div_pos_is_pos,
    lemma_fundamental_div_mod,
    lemma_mod_bound,
};
use vstd::arithmetic::mul::{lemma_mul_inequality, lemma_mul_is_commutative};
use crate::errors::AmmError;

verus! {

/// A fee rate counts parts of this many: one basis point is a hundredth of a percent.
pub const BPS_DENOMINATOR: u64 = 10_000;

/// The part of a swap's input that is kept as the fee, rounded down.
pub open spec fn fee_amount(amount: u64, fee: u16) -> int {
    amount * fee / (BPS_DENOMINATOR as int)
}

/// The part of a swap's input that is priced: the input less the fee.
pub open spec fn net_amount(amount: u64, fee: u16) -> int {
    amount - fee_amount(amount, fee)
}

/// The reserve of the asset sold that the output is priced against: the
/// reserve before the swap and the input net of the fee.
pub open spec fn new_reserve_in(reserve_in: u64, amount: u64, fee: u16) -> int {
    reserve_in + net_amount(amount, fee)
}

/// The reserve of the asset bought that is left after the swap: the product
/// of the two reserves before it, divided by the new reserve of the asset
/// sold, rounded down.
pub open spec fn new_reserve_out(reserve_in: u64, reserve_out: u64, amount: u64, fee: u16) -> int {
    reserve_in * reserve_out / new_reserve_in(reserve_in, amount, fee)
}

/// What a swap pays out.
pub open spec fn amount_out(reserve_in: u64, reserve_out: u64, amount: u64, fee: u16) -> int {
    reserve_out - new_reserve_out(reserve_in, reserve_out, amount, fee)
}

/// The first step of the pricing that fails, if one does.
///
/// A fee that does not fit a balance is an overflow, and one greater than
/// the input an underflow: neither arises at a rate of at most
/// `BPS_DENOMINATOR`. The new reserve of the asset sold must fit a balance,
/// and it must not be zero, since it is the divisor.
pub open spec fn pricing_error(reserve_in: u64, amount: u64, fee: u16) -> Option<AmmError> {
    if fee_amount(amount, fee) > u64::MAX {
        Some(AmmError::Overflow)
    } else if fee_amount(amount, fee) > amount {
        Some(AmmError::Underflow)
    } else if new_reserve_in(reserve_in, amount, fee) > u64::MAX {
        Some(AmmError::Overflow)
    } else if new_reserve_in(reserve_in, amount, fee) == 0 {
        Some(AmmError::Underflow)
    } else {
        None
    }
}

/// The fee is never more than the input where the rate is at most one.
pub proof fn lemma_fee_at_most_amount(amount: u64, fee: u16)
    requires
        fee <= BPS_DENOMINATOR,
    ensures
        0 <= fee_amount(amount, fee) <= amount,
{
    let whole = BPS_DENOMINATOR as int;
    assert(0 <= amount * fee <= whole * amount) by (nonlinear_arith)
        requires
            fee <= whole,
    ;
    lemma_div_pos_is_pos(amount * fee, whole);
    lemma_div_is_ordered(amount * fee, whole * amount, whole);
    lemma_div_multiples_vanish(amount as int, whole);
}

/// A swap never pays out more than the reserve holds, nor less than nothing.
pub proof fn lemma_amount_out_bounds(reserve_in: u64, reserve_out: u64, amount: u64, fee: u16)
    requires
        pricing_error(reserve_in, amount, fee) is None,
    ensures
        0 <= new_reserve_out(reserve_in, reserve_out, amount, fee) <= reserve_out,
        0 <= amount_out(reserve_in, reserve_out, amount, fee) <= reserve_out,
{
    let sold = new_reserve_in(reserve_in, amount, fee);
    let product = reserve_in * reserve_out;
    assert(0 <= reserve_in * reserve_out) by (nonlinear_arith);
    lemma_mul_inequality(reserve_in as int, sold, reserve_out as int);
    lemma_mul_is_commutative(sold, reserve_out as int);
    lemma_div_pos_is_pos(product, sold);
    lemma_div_is_ordered(product, reserve_out * sold, sold);
    lemma_div_multiples_vanish(reserve_out as int, sold);
}

/// What the division that prices a swap leaves over. The rounding goes to
/// the buyer: the reserve of the asset bought is rounded down, so what is
/// paid out is rounded up.
pub open spec fn rounding_loss(reserve_in: u64, reserve_out: u64, amount: u64, fee: u16) -> int {
    (reserve_in * reserve_out) % new_reserve_in(reserve_in, amount, fee)
}

/// At a rate of at most one the fee itself never fails the pricing: a swap
/// is then priced unless the new reserve of the asset sold does not fit a
/// balance, or is zero, which takes an empty reserve and a fee that eats
/// the whole input.
pub proof fn lemma_pricing_error_at_valid_rate(reserve_in: u64, amount: u64, fee: u16)
    requires
        fee <= BPS_DENOMINATOR,
    ensures
        0 <= fee_amount(amount, fee) <= amount,
        new_reserve_in(reserve_in, amount, fee) > u64::MAX ==> pricing_error(
            reserve_in,
            amount,
            fee,
        ) == Some(AmmError::Overflow),
        reserve_in == 0 && fee_amount(amount, fee) == amount ==> pricing_error(
            reserve_in,
            amount,
            fee,
        ) == Some(AmmError::Underflow),
        0 < new_reserve_in(reserve_in, amount, fee) <= u64::MAX ==> pricing_error(
            reserve_in,
            amount,
            fee,
        ) is None,
{
    lemma_fee_at_most_amount(amount, fee);
}

/// The product of the two reserves after a swap, set against the product
/// before it: the fee that stays in the pool raises it, the rounding of the
/// division lowers it.
pub proof fn lemma_product_after_swap(reserve_in: u64, reserve_out: u64, amount: u64, fee: u16)
    requires
        pricing_error(reserve_in, amount, fee) is None,
    ensures
        ({
            let kept = fee_amount(amount, fee);
            let left = new_reserve_out(reserve_in, reserve_out, amount, fee);
            let loss = rounding_loss(reserve_in, reserve_out, amount, fee);
            &&& 0 <= loss < new_reserve_in(reserve_in, amount, fee)
            &&& (reserve_in + amount) * left == reserve_in * reserve_out + kept * left - loss
        }),
{
    let kept = fee_amount(amount, fee);
    let sold = new_reserve_in(reserve_in, amount, fee);
    let product = reserve_in * reserve_out;
    let left = product / sold;
    lemma_fundamental_div_mod(product, sold);
    lemma_mod_bound(product, sold);
    assert((sold + kept) * left == sold * left + kept * left) by (nonlinear_arith);
    assert(reserve_in + amount == sold + kept);
}

/// Prices a swap of `amount` against the two reserves at the rate `fee`.
pub fn swap_amount_out(
    reserve_in: u64,
    reserve_out: u64,
    amount: u64,
    fee: u16,
) -> (r: Result<u64, AmmError>)
    ensures
        (match pricing_error(reserve_in, amount, fee) {
            Some(e) => r == Err::<u64, AmmError>(e),
            None => r matches Ok(out) && out == amount_out(reserve_in, reserve_out, amount, fee),
        }),
{
    assert(amount * fee <= u64::MAX * u16::MAX) by (nonlinear_arith);
    let fee_wide: u128 = (amount as u128) * (fee as u128) / (BPS_DENOMINATOR as u128);
    if fee_wide > u64::MAX as u128 {
        return Err(AmmError::Overflow);
    }
    let fee_kept: u64 = fee_wide as u64;
    if fee_kept > amount {
        return Err(AmmError::Underflow);
    }
    let net: u64 = amount - fee_kept;
    let sold_wide: u128 = reserve_in as u128 + net as u128;
    if sold_wide > u64::MAX as u128 {
        return Err(AmmError::Overflow);
    }
    if sold_wide == 0 {
        return Err(AmmError::Underflow);
    }
    assert(reserve_in * reserve_out <= u64::MAX * u64::MAX) by (nonlinear_arith);
    let product: u128 = (reserve_in as u128) * (reserve_out as u128);
    let left_wide: u128 = product / sold_wide;
    proof {
        lemma_amount_out_bounds(reserve_in, reserve_out, amount, fee);
    }
    let left: u64 = left_wide as u64;
    Ok(reserve_out - left)
}

/// The share of a reserve that `amount` of the receipt token redeems, out
/// of a total of `supply`: rounded down, so that the remainder stays with
/// the pool.
pub open spec fn pro_rata_share(amount: u64, reserve: u64, supply: u64) -> int {
    amount * reserve / (supply as int)
}

/// The step of the redemption that fails, if one does: nothing can be
/// divided among a supply of zero, and a share must fit a balance.
pub open spec fn share_error(amount: u64, reserve: u64, supply: u64) -> Option<AmmError> {
    if supply == 0 {
        Some(AmmError::Underflow)
    } else if pro_rata_share(amount, reserve, supply) > u64::MAX {
        Some(AmmError::Overflow)
    } else {
        None
    }
}

/// Computes the share of `reserve` that `amount` of the receipt token redeems.
pub fn withdraw_share(amount: u64, reserve: u64, supply: u64) -> (r: Result<u64, AmmError>)
    ensures
        (match share_error(amount, reserve, supply) {
            Some(e) => r == Err::<u64, AmmError>(e),
            None => r matches Ok(share) && share == pro_rata_share(amount, reserve, supply),
        }),
{
    if supply == 0 {
        return Err(AmmError::Underflow);
    }
    assert(amount * reserve <= u64::MAX * u64::MAX) by (nonlinear_arith);
    let share_wide: u128 = (amount as u128) * (reserve as u128) / (supply as u128);
    if share_wide > u64::MAX as u128 {
        return Err(AmmError::Overflow);
    }
    Ok(share_wide as u64)
}

/// A share is the exact proportion of the reserve, rounded down: it falls
/// short of `amount / supply` of the reserve by less than one unit. The
/// shares of two reserves are therefore in the proportion of the reserves,
/// up to that rounding.
pub proof fn lemma_pro_rata_exact(amount: u64, reserve_x: u64, reserve_y: u64, supply: u64)
    requires
        supply > 0,
    ensures
        ({
            let share_x = pro_rata_share(amount, reserve_x, supply);
            let share_y = pro_rata_share(amount, reserve_y, supply);
            &&& 0 <= share_x
            &&& 0 <= share_y
            &&& share_x * supply <= amount * reserve_x < (share_x + 1) * supply
            &&& share_y * supply <= amount * reserve_y < (share_y + 1) * supply
            &&& -(reserve_y as int) <= share_x * reserve_y - share_y * reserve_x <= reserve_x
        }),
{
    let s = supply as int;
    let a = amount as int;
    let vx = reserve_x as int;
    let vy = reserve_y as int;
    let sx = pro_rata_share(amount, reserve_x, supply);
    let sy = pro_rata_share(amount, reserve_y, supply);
    assert(0 <= a * vx && 0 <= a * vy) by (nonlinear_arith)
        requires
            0 <= a,
            0 <= vx,
            0 <= vy,
    ;
    lemma_fundamental_div_mod(a * vx, s);
    lemma_mod_bound(a * vx, s);
    lemma_div_pos_is_pos(a * vx, s);
    lemma_fundamental_div_mod(a * vy, s);
    lemma_mod_bound(a * vy, s);
    lemma_div_pos_is_pos(a * vy, s);
    assert(sx * s <= a * vx < (sx + 1) * s) by (nonlinear_arith)
        requires
            a * vx == s * sx + (a * vx) % s,
            0 <= (a * vx) % s < s,
    ;
    assert(sy * s <= a * vy < (sy + 1) * s) by (nonlinear_arith)
        requires
            a * vy == s * sy + (a * vy) % s,
            0 <= (a * vy) % s < s,
    ;
    assert(sx * vy - sy * vx <= vx) by (nonlinear_arith)
        requires
            s > 0,
            0 <= vx,
            0 <= vy,
            sx * s <= a * vx,
            a * vy < (sy + 1) * s,
    {
        // s * (sx * vy) <= a * vx * vy <= s * ((sy + 1) * vx)
        assert((sx * s) * vy <= (a * vx) * vy);
        assert((a * vy) * vx <= ((sy + 1) * s) * vx);
        assert(s * (sx * vy) <= s * ((sy + 1) * vx));
    }
    assert(sy * vx - sx * vy <= vy) by (nonlinear_arith)
        requires
            s > 0,
            0 <= vx,
            0 <= vy,
            sy * s <= a * vy,
            a * vx < (sx + 1) * s,
    {
        assert((sy * s) * vx <= (a * vy) * vx);
        assert((a * vx) * vy <= ((sx + 1) * s) * vy);
        assert(s * (sy * vx) <= s * ((sx + 1) * vy));
    }
}

/// Redeeming no more than the whole supply never takes more than the
/// reserve holds, and redeeming all of it takes all of the reserve.
pub proof fn lemma_share_at_most_reserve(amount: u64, reserve: u64, supply: u64)
    requires
        0 < supply,
        amount <= supply,
    ensures
        0 <= pro_rata_share(amount, reserve, supply) <= reserve,
        share_error(amount, reserve, supply) is None,
        amount == supply ==> pro_rata_share(amount, reserve, supply) == reserve,
{
    let whole = supply as int;
    assert(0 <= amount * reserve <= whole * reserve) by (nonlinear_arith)
        requires
            amount <= whole,
    ;
    lemma_div_pos_is_pos(amount * reserve, whole);
    lemma_div_is_ordered(amount * reserve, whole * reserve, whole);
    lemma_div_multiples_vanish(reserve as int, whole);
}

} // verus!
