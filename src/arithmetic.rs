//! Fixed-width unsigned integers built from limbs that floating registers hold
//! exactly, with wraparound arithmetic.
use vstd::arithmetic::div_mod::*;
use vstd::prelude::*;
use vstd::wrapping::u32_specs;

pub mod double_precision;
pub mod half_precision;
pub mod single_precision;

verus! {

/// The product of two integers given by their bytes, least significant first,
/// with the products of bytes whose weights reach `2^32` or more gathered in one
/// multiple of `2^32`.
pub proof fn lemma_mul_bytes(a0: int, a1: int, a2: int, a3: int, b0: int, b1: int, b2: int, b3: int)
    ensures
        (a0 + 256 * a1 + 0x1_0000 * a2 + 0x100_0000 * a3) * (b0 + 256 * b1 + 0x1_0000 * b2
            + 0x100_0000 * b3) == a0 * b0 + 256 * (a0 * b1 + a1 * b0) + 0x1_0000 * (a0 * b2 + a1
            * b1 + a2 * b0) + 0x100_0000 * (a0 * b3 + a1 * b2 + a2 * b1 + a3 * b0) + 0x1_0000_0000
            * ((a1 * b3 + a2 * b2 + a3 * b1) + 256 * (a2 * b3 + a3 * b2) + 0x1_0000 * (a3 * b3)),
{
    let y = b0 + 256 * b1 + 0x1_0000 * b2 + 0x100_0000 * b3;
    assert((a0 + 256 * a1 + 0x1_0000 * a2 + 0x100_0000 * a3) * y == a0 * y + 256 * (a1 * y)
        + 0x1_0000 * (a2 * y) + 0x100_0000 * (a3 * y)) by (nonlinear_arith)
        requires y == b0 + 256 * b1 + 0x1_0000 * b2 + 0x100_0000 * b3;
    assert(a0 * y == a0 * b0 + 256 * (a0 * b1) + 0x1_0000 * (a0 * b2) + 0x100_0000 * (a0 * b3))
        by (nonlinear_arith)
        requires y == b0 + 256 * b1 + 0x1_0000 * b2 + 0x100_0000 * b3;
    assert(a1 * y == a1 * b0 + 256 * (a1 * b1) + 0x1_0000 * (a1 * b2) + 0x100_0000 * (a1 * b3))
        by (nonlinear_arith)
        requires y == b0 + 256 * b1 + 0x1_0000 * b2 + 0x100_0000 * b3;
    assert(a2 * y == a2 * b0 + 256 * (a2 * b1) + 0x1_0000 * (a2 * b2) + 0x100_0000 * (a2 * b3))
        by (nonlinear_arith)
        requires y == b0 + 256 * b1 + 0x1_0000 * b2 + 0x100_0000 * b3;
    assert(a3 * y == a3 * b0 + 256 * (a3 * b1) + 0x1_0000 * (a3 * b2) + 0x100_0000 * (a3 * b3))
        by (nonlinear_arith)
        requires y == b0 + 256 * b1 + 0x1_0000 * b2 + 0x100_0000 * b3;
}

/// The 32-bit integers wrap around as native `u32` arithmetic does: the sum
/// and the product that their `add` and `mul` stand for, `(a + b) mod 2^32` and
/// `(a * b) mod 2^32`, are `a.wrapping_add(b)` and `a.wrapping_mul(b)`.
pub proof fn lemma_native_wraparound(a: u32, b: u32, sum: nat, product: nat)
    requires
        sum == (a + b) % 0x1_0000_0000,
        product == (a * b) % 0x1_0000_0000,
    ensures
        sum == u32_specs::wrapping_add(a, b),
        product == u32_specs::wrapping_mul(a, b),
{
    if a + b > u32::MAX {
        lemma_fundamental_div_mod_converse(a + b, 0x1_0000_0000, 1, a + b - 0x1_0000_0000);
    } else {
        lemma_small_mod((a + b) as nat, 0x1_0000_0000);
    }
}

} // verus!
