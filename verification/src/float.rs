//! IEEE-754 double comparison carried out on bit patterns.
//!
//! A double is held here by its 64-bit pattern: the top bit is the sign and
//! the other 63 bits, read as an unsigned integer, order the magnitudes of
//! all non-NaN values (zero, subnormals, normals, infinity); a magnitude
//! above that of infinity is a NaN.
use vstd::prelude::*;

verus! {

pub open spec fn sign_bit() -> int {
    0x8000_0000_0000_0000
}

/// The magnitude of a double as an integer that orders magnitudes.
pub open spec fn float_magnitude(bits: u64) -> int {
    if bits >= sign_bit() {
        bits - sign_bit()
    } else {
        bits as int
    }
}

pub open spec fn float_is_nan(bits: u64) -> bool {
    float_magnitude(bits) > 0x7FF0_0000_0000_0000
}

/// An integer that orders non-NaN doubles as their values do; both zeros
/// get the same rank.
pub open spec fn float_rank(bits: u64) -> int {
    if bits >= sign_bit() {
        -float_magnitude(bits)
    } else {
        float_magnitude(bits)
    }
}

/// `a > b` on doubles: false where either is NaN.
pub open spec fn float_gt(a: u64, b: u64) -> bool {
    !float_is_nan(a) && !float_is_nan(b) && float_rank(a) > float_rank(b)
}

/// `a == b` on doubles: false where either is NaN, true for the two zeros.
pub open spec fn float_eq(a: u64, b: u64) -> bool {
    !float_is_nan(a) && !float_is_nan(b) && float_rank(a) == float_rank(b)
}

/// How `>` orders doubles by their bit patterns: a NaN is neither greater
/// nor smaller than anything; two non-negative doubles are ordered as their
/// patterns; two negative ones the other way round; a non-negative one is
/// greater than a negative one unless both are zeros; and `>` is a strict
/// order.
pub proof fn lemma_float_gt_order(a: u64, b: u64, c: u64)
    ensures
        float_is_nan(a) || float_is_nan(b) ==> !float_gt(a, b),
        !float_is_nan(a) && !float_is_nan(b) && a < sign_bit() && b < sign_bit() ==> (float_gt(a, b) <==> a > b),
        !float_is_nan(a) && !float_is_nan(b) && a >= sign_bit() && b >= sign_bit() ==> (float_gt(a, b) <==> a < b),
        !float_is_nan(a) && !float_is_nan(b) && a < sign_bit() && b >= sign_bit() ==> (float_gt(a, b) <==> !(a == 0
            && b == sign_bit())),
        !float_gt(a, a),
        float_gt(a, b) ==> !float_gt(b, a),
        float_gt(a, b) && float_gt(b, c) ==> float_gt(a, c),
{
}

/// Bit pattern of the double one.
pub const FLOAT_ONE_BITS: u64 = 0x3FF0_0000_0000_0000;

/// Bit pattern of the double positive zero.
pub const FLOAT_ZERO_BITS: u64 = 0;

fn magnitude(bits: u64) -> (r: u64)
    ensures
        r == float_magnitude(bits),
{
    if bits >= 0x8000_0000_0000_0000 {
        bits - 0x8000_0000_0000_0000
    } else {
        bits
    }
}

/// Compares two doubles with `>`.
pub fn float_greater(a: u64, b: u64) -> (r: bool)
    ensures
        r == float_gt(a, b),
{
    let ma = magnitude(a);
    let mb = magnitude(b);
    if ma > 0x7FF0_0000_0000_0000 || mb > 0x7FF0_0000_0000_0000 {
        return false;
    }
    let a_neg = a >= 0x8000_0000_0000_0000;
    let b_neg = b >= 0x8000_0000_0000_0000;
    if !a_neg && !b_neg {
        ma > mb
    } else if a_neg && b_neg {
        ma < mb
    } else if !a_neg {
        // a is non-negative, b is non-positive: equal only when both are zero
        ma > 0 || mb > 0
    } else {
        false
    }
}

/// Compares two doubles with `==`.
pub fn float_equal(a: u64, b: u64) -> (r: bool)
    ensures
        r == float_eq(a, b),
{
    let ma = magnitude(a);
    let mb = magnitude(b);
    if ma > 0x7FF0_0000_0000_0000 || mb > 0x7FF0_0000_0000_0000 {
        return false;
    }
    let a_neg = a >= 0x8000_0000_0000_0000;
    let b_neg = b >= 0x8000_0000_0000_0000;
    if a_neg == b_neg {
        ma == mb
    } else {
        ma == 0 && mb == 0
    }
}

} // verus!
