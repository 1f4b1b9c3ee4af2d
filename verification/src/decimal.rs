//! Fixed-point decimal arithmetic for the reward formula.
//!
//! The interest computation works on decimal numbers with a 96-bit
//! coefficient and up to 28 fractional digits. The arithmetic itself is
//! performed by the `rust_decimal` crate; this module holds the mirror
//! representation the verified code computes with, and the trusted
//! wrappers around the three decimal operations the reward formula needs.

use vstd::prelude::*;
use rust_decimal::prelude::ToPrimitive;

verus! {

/// Greatest coefficient a decimal number can carry: `2^96 - 1`.
pub const MAX_DECIMAL_MANTISSA: u128 = 0xFFFF_FFFF_FFFF_FFFF_FFFF_FFFF;

/// Greatest number of fractional digits a decimal number can carry.
pub const MAX_DECIMAL_SCALE: u32 = 28;

/// A non-negative fixed-point decimal number, `mantissa / 10^scale`,
/// written out as its coefficient and its number of fractional digits.
/// These are exactly the parts of the decimal numbers that the outside
/// arithmetic computes with, so a value can be handed across the trust
/// boundary without loss.
#[derive(Clone, Copy, Debug, PartialEq, Eq, Structural)]
pub struct DecimalRepr {
    pub mantissa: u128,
    pub scale: u32,
}

impl DecimalRepr {
    /// The parts describe a representable decimal number.
    pub open spec fn wf(self) -> bool {
        self.mantissa <= MAX_DECIMAL_MANTISSA && self.scale <= MAX_DECIMAL_SCALE
    }
}

/// The decimal number zero, as the arithmetic canonically returns it.
pub open spec fn decimal_zero() -> DecimalRepr {
    DecimalRepr { mantissa: 0, scale: 0 }
}

/// `10^e`.
pub open spec fn pow10(e: nat) -> nat
    decreases e,
{
    if e == 0 {
        1
    } else {
        10 * pow10((e - 1) as nat)
    }
}

/// What dividing one decimal number by another returns: the correctly
/// rounded quotient, or nothing on a zero divisor or when the quotient
/// cannot be represented. The result depends on the four parts alone.
pub uninterp spec fn decimal_div(
    a_mantissa: u128,
    a_scale: u32,
    b_mantissa: u128,
    b_scale: u32,
) -> Option<(u128, u32)>;

/// What multiplying two decimal numbers returns: the product, rounded
/// when it has more precision than a decimal number can carry, or
/// nothing when even the integer part cannot be represented. The result
/// depends on the four parts alone.
pub uninterp spec fn decimal_mul(
    a_mantissa: u128,
    a_scale: u32,
    b_mantissa: u128,
    b_scale: u32,
) -> Option<(u128, u32)>;

/// Relies on `rust_decimal`'s `Decimal::checked_div` for the quotient of
/// two non-negative decimal numbers. Its source returns `None` on a zero
/// divisor, and exactly zero (coefficient 0, no fractional digits) for a
/// zero dividend over a non-zero divisor.
#[verifier::external_body]
pub(crate) fn checked_div_repr(a: DecimalRepr, b: DecimalRepr) -> (r: Option<DecimalRepr>)
    requires
        a.wf(),
        b.wf(),
    ensures
        r is Some ==> r.unwrap().wf()
            && decimal_div(a.mantissa, a.scale, b.mantissa, b.scale)
                == Some((r.unwrap().mantissa, r.unwrap().scale)),
        r is None ==> decimal_div(a.mantissa, a.scale, b.mantissa, b.scale) is None,
        b.mantissa == 0 ==> r is None,
        a.mantissa == 0 && b.mantissa != 0 ==> r == Some(decimal_zero()),
{
    let x = rust_decimal::Decimal::from_i128_with_scale(a.mantissa as i128, a.scale);
    let y = rust_decimal::Decimal::from_i128_with_scale(b.mantissa as i128, b.scale);
    match x.checked_div(y) {
        Some(q) => Some(DecimalRepr { mantissa: q.mantissa() as u128, scale: q.scale() }),
        None => None,
    }
}

/// Relies on `rust_decimal`'s `Decimal::checked_mul` for the product of
/// two non-negative decimal numbers. Its source returns exactly zero
/// (coefficient 0, no fractional digits) when either factor is zero, and
/// `None` when the product's integer part cannot be represented.
#[verifier::external_body]
pub(crate) fn checked_mul_repr(a: DecimalRepr, b: DecimalRepr) -> (r: Option<DecimalRepr>)
    requires
        a.wf(),
        b.wf(),
    ensures
        r is Some ==> r.unwrap().wf()
            && decimal_mul(a.mantissa, a.scale, b.mantissa, b.scale)
                == Some((r.unwrap().mantissa, r.unwrap().scale)),
        r is None ==> decimal_mul(a.mantissa, a.scale, b.mantissa, b.scale) is None,
        a.mantissa == 0 || b.mantissa == 0 ==> r == Some(decimal_zero()),
{
    let x = rust_decimal::Decimal::from_i128_with_scale(a.mantissa as i128, a.scale);
    let y = rust_decimal::Decimal::from_i128_with_scale(b.mantissa as i128, b.scale);
    match x.checked_mul(y) {
        Some(p) => Some(DecimalRepr { mantissa: p.mantissa() as u128, scale: p.scale() }),
        None => None,
    }
}

/// Relies on `rust_decimal`'s `ToPrimitive::to_u64`: the fractional part
/// of a non-negative decimal number is truncated away, and the integer
/// part is returned exactly when it fits in a `u64`.
#[verifier::external_body]
pub(crate) fn repr_to_u64(a: DecimalRepr) -> (r: Option<u64>)
    requires
        a.wf(),
    ensures
        r == (if a.mantissa as nat / pow10(a.scale as nat) <= u64::MAX as nat {
            Some((a.mantissa as nat / pow10(a.scale as nat)) as u64)
        } else {
            None::<u64>
        }),
{
    let x = rust_decimal::Decimal::from_i128_with_scale(a.mantissa as i128, a.scale);
    x.to_u64()
}

} // verus!
