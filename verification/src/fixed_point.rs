//! Conversion between the smallest units of the base asset and of the stable
//! asset at an oracle price, in integers only.
//!
//! A price is a mantissa scaled by a power of ten: one whole unit of the base
//! asset is worth `price * 10^expo` whole units of the stable asset. Each asset
//! counts in its own smallest unit, `10^decimals` of them to the whole unit.
//! Both directions multiply first and divide once, so the only rounding is the
//! final truncation toward zero. A conversion fails rather than wrap where a
//! product does not fit 128 bits, and fails rather than deliver nothing where
//! the quotient is zero.

use vstd::prelude::*;
use vstd::arithmetic::div_mod::{
    lemma_div_is_ordered,
    lemma_div_nonincreasing,
    lemma_div_pos_is_pos,
    lemma_fundamental_div_mod,
};
use vstd::arithmetic::mul::{lemma_mul_inequality, lemma_mul_nonnegative};
use crate::error::TeraniumError;

verus! {

/// The largest power of ten that is computed; `10^38` is the largest that fits
/// 128 bits.
pub const MAX_POW10_EXPONENT: u32 = 38;

/// Ten to the power `e`.
pub open spec fn pow10(e: nat) -> nat
    decreases e,
{
    if e == 0 {
        1
    } else {
        10 * pow10((e - 1) as nat)
    }
}

/// The exponent of the power of ten by which a price with exponent `expo`
/// multiplies: `expo` where it is positive, else zero.
pub open spec fn expo_up(expo: i32) -> nat {
    if expo > 0 {
        expo as nat
    } else {
        0
    }
}

/// The exponent of the power of ten by which a price with exponent `expo`
/// divides: `-expo` where `expo` is negative, else zero.
pub open spec fn expo_down(expo: i32) -> nat {
    if expo < 0 {
        (-(expo as int)) as nat
    } else {
        0
    }
}

/// Whether all four powers of ten of a conversion are within the bound.
pub open spec fn scales_in_bound(expo: i32, base_decimals: u32, usdc_decimals: u32) -> bool {
    &&& base_decimals <= MAX_POW10_EXPONENT
    &&& usdc_decimals <= MAX_POW10_EXPONENT
    &&& expo_up(expo) <= MAX_POW10_EXPONENT
    &&& expo_down(expo) <= MAX_POW10_EXPONENT
}

/// What `pow10_u128` returns: the power where the exponent is within the
/// bound, else an overflow.
pub open spec fn pow10_u128_spec(exp: u32) -> Result<u128, TeraniumError> {
    if exp <= MAX_POW10_EXPONENT {
        Ok(pow10(exp as nat) as u128)
    } else {
        Err(TeraniumError::MathOverflow)
    }
}

/// The dividend of the base-to-stable conversion.
pub open spec fn base_to_usdc_numerator(
    amount_base: u128,
    price: u128,
    expo: i32,
    usdc_decimals: u32,
) -> nat {
    (amount_base * price * pow10(usdc_decimals as nat) * pow10(expo_up(expo))) as nat
}

/// The divisor of the base-to-stable conversion.
pub open spec fn base_to_usdc_denominator(expo: i32, base_decimals: u32) -> nat {
    pow10(base_decimals as nat) * pow10(expo_down(expo))
}

/// What `base_to_usdc` returns: an overflow where a power of ten is out of
/// bound or the dividend or the divisor does not fit 128 bits; else the
/// truncated quotient, but a zero output where that quotient is zero.
pub open spec fn base_to_usdc_spec(
    amount_base: u128,
    price: u128,
    expo: i32,
    base_decimals: u32,
    usdc_decimals: u32,
) -> Result<u128, TeraniumError> {
    let num = base_to_usdc_numerator(amount_base, price, expo, usdc_decimals);
    let den = base_to_usdc_denominator(expo, base_decimals);
    if !scales_in_bound(expo, base_decimals, usdc_decimals) || num > u128::MAX || den
        > u128::MAX {
        Err(TeraniumError::MathOverflow)
    } else if num / den == 0 {
        Err(TeraniumError::SwapZeroOut)
    } else {
        Ok((num / den) as u128)
    }
}

/// The dividend of the stable-to-base conversion.
pub open spec fn usdc_to_base_numerator(amount_usdc: u128, expo: i32, base_decimals: u32) -> nat {
    (amount_usdc * pow10(base_decimals as nat) * pow10(expo_down(expo))) as nat
}

/// The divisor of the stable-to-base conversion.
pub open spec fn usdc_to_base_denominator(price: u128, expo: i32, usdc_decimals: u32) -> nat {
    (price * pow10(usdc_decimals as nat) * pow10(expo_up(expo))) as nat
}

/// What `usdc_to_base` returns: an overflow where a power of ten is out of
/// bound or the dividend or the divisor does not fit 128 bits; else a zero
/// output for the price zero, by which nothing can be divided, and for a
/// quotient of zero; else the truncated quotient.
pub open spec fn usdc_to_base_spec(
    amount_usdc: u128,
    price: u128,
    expo: i32,
    base_decimals: u32,
    usdc_decimals: u32,
) -> Result<u128, TeraniumError> {
    let num = usdc_to_base_numerator(amount_usdc, expo, base_decimals);
    let den = usdc_to_base_denominator(price, expo, usdc_decimals);
    if !scales_in_bound(expo, base_decimals, usdc_decimals) || num > u128::MAX || den
        > u128::MAX {
        Err(TeraniumError::MathOverflow)
    } else if den == 0 || num / den == 0 {
        Err(TeraniumError::SwapZeroOut)
    } else {
        Ok((num / den) as u128)
    }
}

/// Every power of ten is at least one.
pub proof fn lemma_pow10_positive(e: nat)
    ensures
        pow10(e) >= 1,
    decreases e,
{
    if e > 0 {
        lemma_pow10_positive((e - 1) as nat);
    }
}

/// A larger exponent gives a larger or equal power of ten.
pub proof fn lemma_pow10_monotonic(a: nat, b: nat)
    requires
        a <= b,
    ensures
        pow10(a) <= pow10(b),
    decreases b,
{
    if a < b {
        lemma_pow10_monotonic(a, (b - 1) as nat);
        lemma_pow10_positive((b - 1) as nat);
    }
}

/// Within the bound a power of ten fits 128 bits.
pub proof fn lemma_pow10_fits(e: nat)
    requires
        e <= MAX_POW10_EXPONENT,
    ensures
        pow10(e) <= 100_000_000_000_000_000_000_000_000_000_000_000_000,
        pow10(e) <= u128::MAX,
{
    assert(pow10(38) == 100_000_000_000_000_000_000_000_000_000_000_000_000) by {
        reveal_with_fuel(pow10, 39);
    }
    lemma_pow10_monotonic(e, 38);
}

/// Within the bound each of the four powers of ten of a conversion is at
/// least one and fits 128 bits.
proof fn lemma_scales_fit(expo: i32, base_decimals: u32, usdc_decimals: u32)
    requires
        scales_in_bound(expo, base_decimals, usdc_decimals),
    ensures
        1 <= pow10(base_decimals as nat) <= u128::MAX,
        1 <= pow10(usdc_decimals as nat) <= u128::MAX,
        1 <= pow10(expo_up(expo)) <= u128::MAX,
        1 <= pow10(expo_down(expo)) <= u128::MAX,
{
    lemma_pow10_positive(usdc_decimals as nat);
    lemma_pow10_positive(base_decimals as nat);
    lemma_pow10_positive(expo_up(expo));
    lemma_pow10_positive(expo_down(expo));
    lemma_pow10_fits(usdc_decimals as nat);
    lemma_pow10_fits(base_decimals as nat);
    lemma_pow10_fits(expo_up(expo));
    lemma_pow10_fits(expo_down(expo));
}

/// Multiplying a natural number by a factor of at least one does not make it
/// smaller.
proof fn lemma_scale_up(x: nat, factor: nat)
    requires
        factor >= 1,
    ensures
        x <= x * factor,
{
    assert(x * 1 <= x * factor) by (nonlinear_arith)
        requires
            factor >= 1,
            x >= 0,
    ;
}

/// Returns the product of two factors, or an overflow where it does not fit
/// 128 bits.
fn mul_or_overflow(x: u128, y: u128) -> (r: Result<u128, TeraniumError>)
    ensures
        x * y <= u128::MAX ==> r == Ok::<u128, TeraniumError>((x * y) as u128),
        x * y > u128::MAX ==> r == Err::<u128, TeraniumError>(TeraniumError::MathOverflow),
{
    match x.checked_mul(y) {
        Some(product) => Ok(product),
        None => Err(TeraniumError::MathOverflow),
    }
}

/// Returns the two powers of ten that a price exponent stands for: the one to
/// multiply by and the one to divide by. One of the two is `10^0`.
fn expo_scales(expo: i32) -> (r: Result<(u128, u128), TeraniumError>)
    ensures
        expo_up(expo) <= MAX_POW10_EXPONENT && expo_down(expo) <= MAX_POW10_EXPONENT ==> r
            == Ok::<(u128, u128), TeraniumError>(
            (pow10(expo_up(expo)) as u128, pow10(expo_down(expo)) as u128),
        ),
        expo_up(expo) > MAX_POW10_EXPONENT || expo_down(expo) > MAX_POW10_EXPONENT ==> r
            == Err::<(u128, u128), TeraniumError>(TeraniumError::MathOverflow),
{
    if expo > 38 || expo < -38 {
        return Err(TeraniumError::MathOverflow);
    }
    let up: u32 = if expo > 0 {
        expo as u32
    } else {
        0
    };
    let down: u32 = if expo < 0 {
        (-expo) as u32
    } else {
        0
    };
    let scale_up = pow10_u128(up)?;
    let scale_down = pow10_u128(down)?;
    Ok((scale_up, scale_down))
}

/// Returns `10^exp`, or `MathOverflow` where `exp` is above 38.
pub fn pow10_u128(exp: u32) -> (r: Result<u128, TeraniumError>)
    ensures
        r == pow10_u128_spec(exp),
{
    if exp > MAX_POW10_EXPONENT {
        return Err(TeraniumError::MathOverflow);
    }
    let mut v: u128 = 1;
    let mut i: u32 = 0;
    while i < exp
        invariant
            i <= exp <= MAX_POW10_EXPONENT,
            v == pow10(i as nat),
        decreases exp - i,
    {
        proof {
            lemma_pow10_fits((i + 1) as nat);
        }
        v = v * 10;
        i = i + 1;
    }
    Ok(v)
}

/// Converts an amount of the base asset into the stable asset:
/// `amount_base * price * 10^usdc_decimals * 10^max(expo, 0)` divided by
/// `10^base_decimals * 10^max(-expo, 0)`, truncated toward zero.
///
/// Fails with `MathOverflow` where an exponent of ten is above 38 or a product
/// does not fit 128 bits, and otherwise with `SwapZeroOut` where the quotient
/// is zero: a conversion that would deliver nothing is rejected.
pub fn base_to_usdc(
    amount_base: u128,
    price: u128,
    expo: i32,
    base_decimals: u32,
    usdc_decimals: u32,
) -> (r: Result<u128, TeraniumError>)
    ensures
        r == base_to_usdc_spec(amount_base, price, expo, base_decimals, usdc_decimals),
{
    let (scale_up, scale_down) = expo_scales(expo)?;
    let usdc_scale = pow10_u128(usdc_decimals)?;
    let base_scale = pow10_u128(base_decimals)?;
    proof {
        lemma_scales_fit(expo, base_decimals, usdc_decimals);
        lemma_mul_nonnegative(amount_base as int, price as int);
        lemma_mul_nonnegative(amount_base * price, usdc_scale as int);
        lemma_scale_up((amount_base * price) as nat, usdc_scale as nat);
        lemma_scale_up((amount_base * price * usdc_scale) as nat, scale_up as nat);
        lemma_mul_nonnegative(amount_base * price * usdc_scale, scale_up as int);
    }
    let valued = mul_or_overflow(amount_base, price)?;
    let scaled = mul_or_overflow(valued, usdc_scale)?;
    let num = mul_or_overflow(scaled, scale_up)?;
    let denom = mul_or_overflow(base_scale, scale_down)?;
    proof {
        lemma_scale_up(base_scale as nat, scale_down as nat);
    }
    let out = num / denom;
    if out == 0 {
        return Err(TeraniumError::SwapZeroOut);
    }
    Ok(out)
}

/// Converts an amount of the stable asset into the base asset:
/// `amount_usdc * 10^base_decimals * 10^max(-expo, 0)` divided by
/// `price * 10^usdc_decimals * 10^max(expo, 0)`, truncated toward zero.
///
/// Fails with `MathOverflow` where an exponent of ten is above 38 or a product
/// does not fit 128 bits, and otherwise with `SwapZeroOut` where the price is
/// zero or the quotient is zero: a conversion that would deliver nothing is
/// rejected.
pub fn usdc_to_base(
    amount_usdc: u128,
    price: u128,
    expo: i32,
    base_decimals: u32,
    usdc_decimals: u32,
) -> (r: Result<u128, TeraniumError>)
    ensures
        r == usdc_to_base_spec(amount_usdc, price, expo, base_decimals, usdc_decimals),
{
    let (scale_up, scale_down) = expo_scales(expo)?;
    let usdc_scale = pow10_u128(usdc_decimals)?;
    let base_scale = pow10_u128(base_decimals)?;
    proof {
        lemma_scales_fit(expo, base_decimals, usdc_decimals);
        lemma_mul_nonnegative(amount_usdc as int, base_scale as int);
        lemma_mul_nonnegative(price as int, usdc_scale as int);
        lemma_scale_up((amount_usdc * base_scale) as nat, scale_down as nat);
        lemma_scale_up((price * usdc_scale) as nat, scale_up as nat);
        lemma_mul_nonnegative(amount_usdc * base_scale, scale_down as int);
        lemma_mul_nonnegative(price * usdc_scale, scale_up as int);
    }
    let scaled = mul_or_overflow(amount_usdc, base_scale)?;
    let num = mul_or_overflow(scaled, scale_down)?;
    let valued = mul_or_overflow(price, usdc_scale)?;
    let denom = mul_or_overflow(valued, scale_up)?;
    if denom == 0 {
        return Err(TeraniumError::SwapZeroOut);
    }
    let out = num / denom;
    if out == 0 {
        return Err(TeraniumError::SwapZeroOut);
    }
    Ok(out)
}

/// The base-to-stable conversion never decreases as the amount grows, price,
/// exponent and decimals being fixed: where both amounts convert, the lesser
/// converts to no more. Where the greater converts, the lesser fails only for
/// an output of zero.
pub proof fn lemma_base_to_usdc_monotonic(
    lesser: u128,
    greater: u128,
    price: u128,
    expo: i32,
    base_decimals: u32,
    usdc_decimals: u32,
)
    requires
        lesser <= greater,
    ensures
        base_to_usdc_spec(greater, price, expo, base_decimals, usdc_decimals) matches Ok(high)
            ==> (base_to_usdc_spec(lesser, price, expo, base_decimals, usdc_decimals) matches Ok(
            low,
        ) ==> low <= high),
        base_to_usdc_spec(greater, price, expo, base_decimals, usdc_decimals) is Ok
            ==> base_to_usdc_spec(lesser, price, expo, base_decimals, usdc_decimals) is Ok
            || base_to_usdc_spec(lesser, price, expo, base_decimals, usdc_decimals) == Err::<
            u128,
            TeraniumError,
        >(TeraniumError::SwapZeroOut),
{
    let usdc_scale = pow10(usdc_decimals as nat);
    let up = pow10(expo_up(expo));
    let den = base_to_usdc_denominator(expo, base_decimals);
    lemma_mul_inequality(lesser as int, greater as int, price as int);
    lemma_mul_nonnegative(lesser as int, price as int);
    lemma_mul_inequality(lesser * price, greater * price, usdc_scale as int);
    lemma_mul_nonnegative(lesser * price, usdc_scale as int);
    lemma_mul_inequality(lesser * price * usdc_scale, greater * price * usdc_scale, up as int);
    lemma_mul_nonnegative(lesser * price * usdc_scale, up as int);
    lemma_pow10_positive(base_decimals as nat);
    lemma_pow10_positive(expo_down(expo));
    lemma_scale_up(pow10(base_decimals as nat), pow10(expo_down(expo)));
    lemma_div_is_ordered(
        base_to_usdc_numerator(lesser, price, expo, usdc_decimals) as int,
        base_to_usdc_numerator(greater, price, expo, usdc_decimals) as int,
        den as int,
    );
}

/// The stable-to-base conversion never decreases as the amount grows, price,
/// exponent and decimals being fixed: where both amounts convert, the lesser
/// converts to no more. Where the greater converts, the lesser fails only for
/// an output of zero.
pub proof fn lemma_usdc_to_base_monotonic(
    lesser: u128,
    greater: u128,
    price: u128,
    expo: i32,
    base_decimals: u32,
    usdc_decimals: u32,
)
    requires
        lesser <= greater,
    ensures
        usdc_to_base_spec(greater, price, expo, base_decimals, usdc_decimals) matches Ok(high)
            ==> (usdc_to_base_spec(lesser, price, expo, base_decimals, usdc_decimals) matches Ok(
            low,
        ) ==> low <= high),
        usdc_to_base_spec(greater, price, expo, base_decimals, usdc_decimals) is Ok
            ==> usdc_to_base_spec(lesser, price, expo, base_decimals, usdc_decimals) is Ok
            || usdc_to_base_spec(lesser, price, expo, base_decimals, usdc_decimals) == Err::<
            u128,
            TeraniumError,
        >(TeraniumError::SwapZeroOut),
{
    let base_scale = pow10(base_decimals as nat);
    let down = pow10(expo_down(expo));
    let den = usdc_to_base_denominator(price, expo, usdc_decimals);
    lemma_mul_inequality(lesser as int, greater as int, base_scale as int);
    lemma_mul_nonnegative(lesser as int, base_scale as int);
    lemma_mul_inequality(lesser * base_scale, greater * base_scale, down as int);
    lemma_mul_nonnegative(lesser * base_scale, down as int);
    if den > 0 {
        lemma_div_is_ordered(
            usdc_to_base_numerator(lesser, expo, base_decimals) as int,
            usdc_to_base_numerator(greater, expo, base_decimals) as int,
            den as int,
        );
    }
}

/// Both conversions round toward zero: the output is the largest amount whose
/// worth, on the scale of the divisor, is not above the dividend.
pub proof fn lemma_conversion_truncates(
    amount: u128,
    price: u128,
    expo: i32,
    base_decimals: u32,
    usdc_decimals: u32,
)
    ensures
        base_to_usdc_spec(amount, price, expo, base_decimals, usdc_decimals) matches Ok(out) ==> {
            let num = base_to_usdc_numerator(amount, price, expo, usdc_decimals);
            let den = base_to_usdc_denominator(expo, base_decimals);
            out * den <= num < (out + 1) * den
        },
        usdc_to_base_spec(amount, price, expo, base_decimals, usdc_decimals) matches Ok(out) ==> {
            let num = usdc_to_base_numerator(amount, expo, base_decimals);
            let den = usdc_to_base_denominator(price, expo, usdc_decimals);
            out * den <= num < (out + 1) * den
        },
{
    if let Ok(out) = base_to_usdc_spec(amount, price, expo, base_decimals, usdc_decimals) {
        let num = base_to_usdc_numerator(amount, price, expo, usdc_decimals) as int;
        let den = base_to_usdc_denominator(expo, base_decimals) as int;
        lemma_pow10_positive(base_decimals as nat);
        lemma_pow10_positive(expo_down(expo));
        lemma_scale_up(pow10(base_decimals as nat), pow10(expo_down(expo)));
        lemma_quotient_bounds(num, den);
    }
    if let Ok(out) = usdc_to_base_spec(amount, price, expo, base_decimals, usdc_decimals) {
        let num = usdc_to_base_numerator(amount, expo, base_decimals) as int;
        let den = usdc_to_base_denominator(price, expo, usdc_decimals) as int;
        lemma_quotient_bounds(num, den);
    }
}

/// The truncated quotient of a natural number by a positive one, times the
/// divisor, is the last multiple of the divisor not above the dividend.
proof fn lemma_quotient_bounds(num: int, den: int)
    requires
        num >= 0,
        den > 0,
    ensures
        (num / den) * den <= num < (num / den + 1) * den,
{
    lemma_fundamental_div_mod(num, den);
    assert(0 <= num % den < den);
    assert(den * (num / den) == (num / den) * den) by (nonlinear_arith);
    assert((num / den + 1) * den == (num / den) * den + den) by (nonlinear_arith);
}

/// No conversion delivers nothing: an amount that is returned is above zero.
pub proof fn lemma_conversion_is_positive(
    amount: u128,
    price: u128,
    expo: i32,
    base_decimals: u32,
    usdc_decimals: u32,
)
    ensures
        base_to_usdc_spec(amount, price, expo, base_decimals, usdc_decimals) matches Ok(out)
            ==> out > 0,
        usdc_to_base_spec(amount, price, expo, base_decimals, usdc_decimals) matches Ok(out)
            ==> out > 0,
{
    if base_to_usdc_spec(amount, price, expo, base_decimals, usdc_decimals) is Ok {
        let num = base_to_usdc_numerator(amount, price, expo, usdc_decimals) as int;
        let den = base_to_usdc_denominator(expo, base_decimals) as int;
        lemma_scales_fit(expo, base_decimals, usdc_decimals);
        lemma_scale_up(pow10(base_decimals as nat), pow10(expo_down(expo)));
        lemma_div_pos_is_pos(num, den);
        lemma_div_nonincreasing(num, den);
    }
    if usdc_to_base_spec(amount, price, expo, base_decimals, usdc_decimals) is Ok {
        let num = usdc_to_base_numerator(amount, expo, base_decimals) as int;
        let den = usdc_to_base_denominator(price, expo, usdc_decimals) as int;
        lemma_div_pos_is_pos(num, den);
        lemma_div_nonincreasing(num, den);
    }
}

} // verus!
