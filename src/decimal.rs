//! Fixed-point decimal values, computed with `rust_decimal`.

use vstd::prelude::*;

verus! {

/// Largest mantissa magnitude a decimal can hold: 2^96 - 1.
pub const MAX_MANTISSA: i128 = 79228162514264337593543950335;

/// Largest number of digits after the decimal point.
pub const MAX_SCALE: u32 = 28;

/// A decimal number `mantissa / 10^scale`.
#[derive(Clone, Copy, Debug, PartialEq, Eq, Structural)]
pub struct Dec {
    pub mantissa: i128,
    pub scale: u32,
}

/// A mantissa that fits in 96 bits.
pub open spec fn mantissa_fits(m: int) -> bool {
    -(MAX_MANTISSA as int) <= m <= MAX_MANTISSA as int
}

impl Dec {
    /// The value is one that a `rust_decimal::Decimal` can hold.
    pub open spec fn wf(self) -> bool {
        mantissa_fits(self.mantissa as int) && self.scale <= MAX_SCALE
    }

    /// The decimal zero.
    pub open spec fn spec_zero() -> Dec {
        Dec { mantissa: 0, scale: 0 }
    }

    /// Builds `mantissa / 10^scale`, or `None` where a decimal cannot hold it.
    pub fn new(mantissa: i128, scale: u32) -> (r: Option<Dec>)
        ensures
            r is Some <==> (Dec { mantissa, scale }).wf(),
            r is Some ==> r->0 == (Dec { mantissa, scale }),
    {
        if -MAX_MANTISSA <= mantissa && mantissa <= MAX_MANTISSA && scale <= MAX_SCALE {
            Some(Dec { mantissa, scale })
        } else {
            None
        }
    }

    /// The whole number `n`.
    pub fn from_int(n: i64) -> (r: Dec)
        ensures
            r == (Dec { mantissa: n as i128, scale: 0 }),
            r.wf(),
    {
        Dec { mantissa: n as i128, scale: 0 }
    }

    /// The decimal zero.
    pub fn zero() -> (r: Dec)
        ensures
            r == Dec::spec_zero(),
            r.wf(),
    {
        Dec { mantissa: 0, scale: 0 }
    }
}

/// What `rust_decimal` gives for the sum of two decimals.
pub uninterp spec fn decimal_sum(a: Dec, b: Dec) -> Dec;

/// What `rust_decimal` gives for a decimal divided by a positive whole number.
pub uninterp spec fn decimal_quotient(a: Dec, n: u64) -> Dec;

/// The 16 bytes `rust_decimal` serializes a decimal to.
pub uninterp spec fn decimal_encoding(d: Dec) -> Seq<u8>;

/// Relies on `rust_decimal::Decimal::checked_add`: the result is a function of the
/// operands; zero plus a value gives that value back; two operands of one scale whose
/// mantissas add up within 96 bits give their exact sum at that scale.
#[verifier::external_body]
pub(crate) fn checked_sum(a: Dec, b: Dec) -> (r: Option<Dec>)
    requires
        a.wf(),
        b.wf(),
    ensures
        r is Some ==> r->0 == decimal_sum(a, b) && r->0.wf(),
        a.mantissa == 0 ==> r == Some(b),
        a.scale == b.scale && mantissa_fits(a.mantissa + b.mantissa) ==> r == Some(
            Dec { mantissa: (a.mantissa + b.mantissa) as i128, scale: a.scale },
        ),
{
    let x = rust_decimal::Decimal::from_i128_with_scale(a.mantissa, a.scale);
    let y = rust_decimal::Decimal::from_i128_with_scale(b.mantissa, b.scale);
    x.checked_add(y).map(|z| Dec { mantissa: z.mantissa(), scale: z.scale() })
}

/// Relies on `rust_decimal::Decimal::checked_div`: it fails only on a zero divisor
/// (a quotient by a whole number never outgrows the dividend), the result is a
/// function of the operands, and a nonzero dividend that `n` divides exactly gives
/// the exact quotient at the dividend's scale.
#[verifier::external_body]
pub(crate) fn checked_quotient(a: Dec, n: u64) -> (r: Option<Dec>)
    requires
        a.wf(),
    ensures
        r is None <==> n == 0,
        r is Some ==> r->0 == decimal_quotient(a, n) && r->0.wf(),
        n > 0 && a.mantissa != 0 && (a.mantissa as int) % (n as int) == 0 ==> r == Some(
            Dec { mantissa: ((a.mantissa as int) / (n as int)) as i128, scale: a.scale },
        ),
{
    let x = rust_decimal::Decimal::from_i128_with_scale(a.mantissa, a.scale);
    x.checked_div(rust_decimal::Decimal::from(n)).map(|z| Dec { mantissa: z.mantissa(), scale: z.scale() })
}

/// Relies on `rust_decimal::Decimal::serialize`: 16 bytes that depend on the value alone.
#[verifier::external_body]
pub(crate) fn encode(d: Dec) -> (r: Vec<u8>)
    requires
        d.wf(),
    ensures
        r@ == decimal_encoding(d),
        r@.len() == 16,
{
    rust_decimal::Decimal::from_i128_with_scale(d.mantissa, d.scale).serialize().to_vec()
}

} // verus!
