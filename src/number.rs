//! The numeric payload of a document value.
use vstd::prelude::*;

verus! {

/// Mask of the bits of a binary64 encoding other than the sign.
pub const MAGNITUDE_MASK: u64 = 0x7fff_ffff_ffff_ffff;

/// The magnitude bits of positive infinity; any larger magnitude is a NaN.
pub const INFINITY_BITS: u64 = 0x7ff0_0000_0000_0000;

/// A number as it was parsed or built: a signed 64-bit integer, or a
/// binary64 floating-point number held as its IEEE-754 encoding (the bits
/// that `f64::to_bits` gives).
#[derive(Clone, Copy, Debug)]
pub enum Number {
    Int(i64),
    Float(u64),
}

/// The encoding `bits` is a NaN: all exponent bits set, mantissa non-zero.
pub open spec fn float_is_nan(bits: u64) -> bool {
    bits & MAGNITUDE_MASK > INFINITY_BITS
}

/// The encoding `bits` is positive or negative zero.
pub open spec fn float_is_zero(bits: u64) -> bool {
    bits & MAGNITUDE_MASK == 0
}

/// IEEE-754 equality on binary64 encodings: a NaN equals nothing, the two
/// zeros are equal, and otherwise equal numbers have equal encodings.
pub open spec fn float_eq(a: u64, b: u64) -> bool {
    &&& !float_is_nan(a)
    &&& !float_is_nan(b)
    &&& (a == b || (float_is_zero(a) && float_is_zero(b)))
}

/// Equality of numbers, by their stored representation: integers by value,
/// floats by IEEE-754 equality except that every NaN equals every NaN (so
/// that the relation is reflexive), and an integer never equals a float.
pub open spec fn number_eq(a: Number, b: Number) -> bool {
    match (a, b) {
        (Number::Int(x), Number::Int(y)) => x == y,
        (Number::Float(x), Number::Float(y)) => float_eq(x, y) || (float_is_nan(x)
            && float_is_nan(y)),
        _ => false,
    }
}

/// Decides IEEE-754 equality of two binary64 encodings.
pub fn float_bits_eq(a: u64, b: u64) -> (r: bool)
    ensures
        r == float_eq(a, b),
{
    let ma = a & MAGNITUDE_MASK;
    let mb = b & MAGNITUDE_MASK;
    if ma > INFINITY_BITS || mb > INFINITY_BITS {
        false
    } else {
        a == b || (ma == 0 && mb == 0)
    }
}

impl Number {
    /// Decides [`number_eq`].
    pub fn equals(&self, other: &Number) -> (r: bool)
        ensures
            r == number_eq(*self, *other),
    {
        match (self, other) {
            (Number::Int(x), Number::Int(y)) => *x == *y,
            (Number::Float(x), Number::Float(y)) => {
                let both_nan = (*x & MAGNITUDE_MASK) > INFINITY_BITS && (*y & MAGNITUDE_MASK)
                    > INFINITY_BITS;
                float_bits_eq(*x, *y) || both_nan
            },
            _ => false,
        }
    }
}

impl PartialEq for Number {
    fn eq(&self, other: &Number) -> (r: bool) {
        self.equals(other)
    }
}

impl vstd::std_specs::cmp::PartialEqSpecImpl for Number {
    open spec fn obeys_eq_spec() -> bool {
        true
    }

    open spec fn eq_spec(&self, other: &Number) -> bool {
        number_eq(*self, *other)
    }
}

} // verus!
