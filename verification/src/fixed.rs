//! Fixed-point arithmetic in 16.16 format.

use vstd::prelude::*;

verus! {

/// Number of fraction bits in a `fixed_t`.
pub const FRACBITS: i32 = 16;

/// The fixed-point representation of 1.
pub const FRACUNIT: i32 = 65536;

/// A 16.16 fixed-point number.
pub type fixed_t = i32;

/// The exact product of two fixed-point numbers, rounded towards negative infinity.
pub open spec fn fixed_mul_exact(a: int, b: int) -> int {
    (a * b) / 65536
}

/// Multiplies two fixed-point numbers. The 64-bit product is shifted back
/// by 16 bits (rounding towards negative infinity) and truncated to 32 bits.
pub fn FixedMul(a: fixed_t, b: fixed_t) -> (r: fixed_t)
    ensures
        r == #[verifier::truncate] (fixed_mul_exact(a as int, b as int) as i32),
{
    proof { lemma_product_fits_i64(a, b); }
    let p: i64 = (a as i64) * (b as i64);
    assert(p >> 16u64 == p / 65536) by (bit_vector);
    #[verifier::truncate] ((p >> 16u64) as i32)
}

/// The product of two 32-bit integers fits in 64 bits.
pub proof fn lemma_product_fits_i64(a: i32, b: i32)
    ensures
        i64::MIN <= (a as int) * (b as int) <= i64::MAX,
{
    assert(i64::MIN <= (a as int) * (b as int) <= i64::MAX) by (nonlinear_arith)
        requires
            i32::MIN <= a <= i32::MAX,
            i32::MIN <= b <= i32::MAX,
    ;
}

/// Magnitude of a 32-bit integer, as an unsigned number.
pub open spec fn magnitude(a: int) -> nat {
    if a < 0 { (-a) as nat } else { a as nat }
}

/// `(a ^ b) < 0` holds exactly when `a` and `b` have different signs.
pub proof fn lemma_xor_sign(a: i32, b: i32)
    ensures
        ((a ^ b) < 0) == ((a < 0) != (b < 0)),
{
    assert(((a ^ b) < 0) == ((a < 0) != (b < 0))) by (bit_vector);
}

/// Magnitude of a 32-bit integer as a `u32` (total, also for `i32::MIN`).
pub fn abs_u32(a: i32) -> (r: u32)
    ensures
        r as int == magnitude(a as int),
{
    if a < 0 {
        (0i64 - (a as i64)) as u32
    } else {
        a as u32
    }
}

/// The quotient `a / b` in 16.16 fixed point, rounded towards zero.
pub open spec fn fixed_div_exact(a: int, b: int) -> int {
    let q: int = (magnitude(a) as int * 65536) / (magnitude(b) as int);
    if (a < 0) != (b < 0) { -q } else { q }
}

/// Whether `FixedDiv` saturates: the quotient would not fit in 16.16 bits
/// (this covers a zero divisor).
pub open spec fn fixed_div_overflows(a: int, b: int) -> bool {
    magnitude(a) / 16384 >= magnitude(b)
}

/// The result of dividing two fixed-point numbers.
pub open spec fn fixed_div_spec(a: int, b: int) -> int {
    if fixed_div_overflows(a, b) {
        if (a < 0) != (b < 0) { i32::MIN as int } else { i32::MAX as int }
    } else {
        fixed_div_exact(a, b)
    }
}

/// Divides two fixed-point numbers. When the quotient would not fit
/// (including division by zero), the result saturates to `i32::MIN`
/// or `i32::MAX` according to the sign of the quotient.
pub fn FixedDiv(a: fixed_t, b: fixed_t) -> (r: fixed_t)
    ensures
        r as int == fixed_div_spec(a as int, b as int),
{
    let ua = abs_u32(a);
    let ub = abs_u32(b);
    proof { lemma_xor_sign(a, b); }
    if (ua >> 14u32) >= ub {
        assert(ua >> 14u32 == ua / 16384) by (bit_vector);
        return if (a ^ b) < 0 { i32::MIN } else { i32::MAX };
    }
    assert(ua >> 14u32 == ua / 16384) by (bit_vector);
    let num: u64 = (ua as u64) * 65536;
    let q: u64 = num / (ub as u64);
    proof { lemma_quotient_bound(ua as int, ub as int); }
    if (a ^ b) < 0 {
        0i32 - (q as i32)
    } else {
        q as i32
    }
}

/// If `ua / 16384 < ub`, then `ua * 65536 / ub < 2^30`.
pub proof fn lemma_quotient_bound(ua: int, ub: int)
    requires
        0 <= ua,
        0 <= ub,
        ua / 16384 < ub,
    ensures
        ub > 0,
        (ua * 65536) / ub < 0x4000_0000,
        (ua * 65536) / ub >= 0,
{
    assert(ua < ub * 16384) by (nonlinear_arith)
        requires
            0 <= ua,
            ua / 16384 < ub,
    ;
    assert((ua * 65536) / ub < 0x4000_0000) by (nonlinear_arith)
        requires
            0 <= ua,
            ub > 0,
            ua < ub * 16384,
    ;
    assert((ua * 65536) / ub >= 0) by (nonlinear_arith)
        requires
            0 <= ua,
            ub > 0,
    ;
}

} // verus!
