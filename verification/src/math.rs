use vstd::prelude::*;

use crate::errors::AmmError;

verus! {

/// The fee-adjusted input amount: `amount_in * (fee_den - fee_num)`.
pub open spec fn eff_in(amount_in: int, fee_num: int, fee_den: int) -> int {
    amount_in * (fee_den - fee_num)
}

/// Numerator of the constant-product quote.
pub open spec fn out_numerator(
    amount_in: int,
    reserve_out: int,
    fee_num: int,
    fee_den: int,
) -> int {
    eff_in(amount_in, fee_num, fee_den) * reserve_out
}

/// Denominator of the constant-product quote.
pub open spec fn out_denominator(
    amount_in: int,
    reserve_in: int,
    fee_num: int,
    fee_den: int,
) -> int {
    reserve_in * fee_den + eff_in(amount_in, fee_num, fee_den)
}

/// The exact quote of the constant-product formula, rounded down in the
/// pool's favor:
/// `floor(amount_in_eff * reserve_out / (reserve_in * fee_den + amount_in_eff))`.
pub open spec fn swap_output(
    amount_in: int,
    reserve_in: int,
    reserve_out: int,
    fee_num: int,
    fee_den: int,
) -> int {
    out_numerator(amount_in, reserve_out, fee_num, fee_den) / out_denominator(
        amount_in,
        reserve_in,
        fee_num,
        fee_den,
    )
}

/// Whether every intermediate product of the quote fits the double-width
/// (128-bit) accumulator. When this fails, [`compute_output`] reports
/// overflow instead of wrapping.
pub open spec fn output_fits(
    amount_in: int,
    reserve_in: int,
    reserve_out: int,
    fee_num: int,
    fee_den: int,
) -> bool {
    &&& out_numerator(amount_in, reserve_out, fee_num, fee_den) <= u128::MAX
    &&& out_denominator(amount_in, reserve_in, fee_num, fee_den) <= u128::MAX
}

/// The quote never reaches the whole output reserve: with positive input,
/// positive reserves and a fee below one, `swap_output < reserve_out`.
pub proof fn lemma_output_below_reserve(
    amount_in: int,
    reserve_in: int,
    reserve_out: int,
    fee_num: int,
    fee_den: int,
)
    requires
        amount_in > 0,
        reserve_in > 0,
        reserve_out > 0,
        0 <= fee_num < fee_den,
    ensures
        0 <= swap_output(amount_in, reserve_in, reserve_out, fee_num, fee_den) < reserve_out,
{
    let e = eff_in(amount_in, fee_num, fee_den);
    let num = out_numerator(amount_in, reserve_out, fee_num, fee_den);
    let den = out_denominator(amount_in, reserve_in, fee_num, fee_den);
    assert(e >= 1 && num >= 0 && den > e) by (nonlinear_arith)
        requires
            amount_in > 0,
            reserve_in > 0,
            reserve_out > 0,
            0 <= fee_num < fee_den,
            e == eff_in(amount_in, fee_num, fee_den),
            num == out_numerator(amount_in, reserve_out, fee_num, fee_den),
            den == out_denominator(amount_in, reserve_in, fee_num, fee_den);
    assert(num < den * reserve_out) by (nonlinear_arith)
        requires
            e >= 1,
            den > e,
            reserve_out > 0,
            num == e * reserve_out,
    ;
    vstd::arithmetic::div_mod::lemma_multiply_divide_lt(num, den, reserve_out);
    vstd::arithmetic::div_mod::lemma_div_pos_is_pos(num, den);
}

/// Product non-decrease net of fee: a swap priced by [`swap_output`] never
/// lowers the product of the two reserves. With `amount_out` the exact quote,
/// `(reserve_in + amount_in) * (reserve_out - amount_out) >= reserve_in * reserve_out`.
pub proof fn lemma_product_non_decrease(
    amount_in: int,
    reserve_in: int,
    reserve_out: int,
    fee_num: int,
    fee_den: int,
)
    requires
        amount_in > 0,
        reserve_in > 0,
        reserve_out > 0,
        0 < fee_num < fee_den,
    ensures
        (reserve_in + amount_in) * (reserve_out - swap_output(
            amount_in,
            reserve_in,
            reserve_out,
            fee_num,
            fee_den,
        )) >= reserve_in * reserve_out,
{
    let e = eff_in(amount_in, fee_num, fee_den);
    let num = out_numerator(amount_in, reserve_out, fee_num, fee_den);
    let den = out_denominator(amount_in, reserve_in, fee_num, fee_den);
    let o = swap_output(amount_in, reserve_in, reserve_out, fee_num, fee_den);
    assert(e >= 1 && num >= 0 && den > e) by (nonlinear_arith)
        requires
            amount_in > 0,
            reserve_in > 0,
            reserve_out > 0,
            0 < fee_num < fee_den,
            e == eff_in(amount_in, fee_num, fee_den),
            num == out_numerator(amount_in, reserve_out, fee_num, fee_den),
            den == out_denominator(amount_in, reserve_in, fee_num, fee_den);
    // Division bound: o * den <= num.
    vstd::arithmetic::div_mod::lemma_fundamental_div_mod(num, den);
    vstd::arithmetic::div_mod::lemma_mod_bound(num, den);
    assert(o * den <= num) by (nonlinear_arith)
        requires
            den > 0,
            num == den * o + num % den,
            0 <= num % den,
    ;
    // Core inequality: amount_in * reserve_out * den >= (reserve_in + amount_in) * o * den,
    // because e <= amount_in * fee_den.
    assert((reserve_in + amount_in) * o * den <= amount_in * reserve_out * den)
        by (nonlinear_arith)
        requires
            o * den <= num,
            num == e * reserve_out,
            den == reserve_in * fee_den + e,
            e == amount_in * (fee_den - fee_num),
            0 < fee_num < fee_den,
            amount_in > 0,
            reserve_in > 0,
            reserve_out > 0,
            o >= 0,
            den > 0,
    ;
    assert((reserve_in + amount_in) * o <= amount_in * reserve_out) by (nonlinear_arith)
        requires
            den > 0,
            (reserve_in + amount_in) * o * den <= amount_in * reserve_out * den,
    ;
    assert((reserve_in + amount_in) * (reserve_out - o) >= reserve_in * reserve_out)
        by (nonlinear_arith)
        requires
            (reserve_in + amount_in) * o <= amount_in * reserve_out,
    ;
}

/// Overflow-checked constant-product pricing.
///
/// All intermediates are carried in 128-bit arithmetic; any step that would
/// exceed that width fails with [`AmmError::MathOverflow`] instead of
/// wrapping or truncating silently. On success the result is the exact
/// rounded-down quote [`swap_output`], and it is strictly below
/// `reserve_out`, so a priced swap can never fully drain a side.
pub fn compute_output(
    amount_in: u64,
    reserve_in: u64,
    reserve_out: u64,
    fee_num: u64,
    fee_den: u64,
) -> (r: Result<u64, AmmError>)
    requires
        amount_in > 0,
        reserve_in > 0,
        reserve_out > 0,
        fee_num < fee_den,
    ensures
        r matches Ok(o) ==> o == swap_output(
            amount_in as int,
            reserve_in as int,
            reserve_out as int,
            fee_num as int,
            fee_den as int,
        ) && o < reserve_out,
        r is Ok <==> output_fits(
            amount_in as int,
            reserve_in as int,
            reserve_out as int,
            fee_num as int,
            fee_den as int,
        ),
        r matches Err(e) ==> e == AmmError::MathOverflow,
{
    let fee_multiplier: u128 = (fee_den - fee_num) as u128;
    // u64 * u64 always fits in u128.
    assert((amount_in as int) * (fee_multiplier as int) <= u128::MAX) by (nonlinear_arith)
        requires
            amount_in <= u64::MAX,
            fee_multiplier <= u64::MAX,
    ;
    let amount_in_eff: u128 = (amount_in as u128) * fee_multiplier;
    let numerator: u128 = match amount_in_eff.checked_mul(reserve_out as u128) {
        Some(n) => n,
        None => {
            proof {
                assert(!output_fits(
                    amount_in as int,
                    reserve_in as int,
                    reserve_out as int,
                    fee_num as int,
                    fee_den as int,
                ));
            }
            return Err(AmmError::MathOverflow);
        },
    };
    assert((reserve_in as int) * (fee_den as int) <= u128::MAX) by (nonlinear_arith)
        requires
            reserve_in <= u64::MAX,
            fee_den <= u64::MAX,
    ;
    let scaled_reserve_in: u128 = (reserve_in as u128) * (fee_den as u128);
    let denominator: u128 = match scaled_reserve_in.checked_add(amount_in_eff) {
        Some(d) => d,
        None => {
            return Err(AmmError::MathOverflow);
        },
    };
    proof {
        assert(denominator > 0) by (nonlinear_arith)
            requires
                denominator == (reserve_in as int) * (fee_den as int) + (amount_in_eff as int),
                reserve_in >= 1,
                fee_den >= 1,
                amount_in_eff >= 0,
        ;
        lemma_output_below_reserve(
            amount_in as int,
            reserve_in as int,
            reserve_out as int,
            fee_num as int,
            fee_den as int,
        );
    }
    let quotient: u128 = numerator / denominator;
    assert(quotient < reserve_out);
    Ok(quotient as u64)
}

} // verus!
