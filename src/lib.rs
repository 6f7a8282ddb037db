//! Exact modular integer arithmetic on limbs that floating registers hold
//! exactly, wide fixed-width integers composed of such limbs, and a
//! pseudo-Mersenne prime field.
use vstd::prelude::*;

pub mod arithmetic;
pub mod fp20;
pub mod limb;
pub mod utils;

verus! {

/// The prime `2^16 + 1`, the modulus of [`reduce_numeric_half`] and [`mul_mod_fma`].
pub const MODULUS: u64 = 65537;

/// `a mod 65537` for `a` held exactly by a single-precision register
/// (`a < 2^24`): the remainder `a - q * 65537` after the truncated quotient `q`.
pub fn reduce_numeric_half(a: u32) -> (r: u32)
    requires
        a < 0x100_0000,
    ensures
        r == a % 65537,
{
    let q = a / 65537;
    proof {
        vstd::arithmetic::div_mod::lemma_fundamental_div_mod(a as int, 65537);
    }
    a - q * 65537
}

/// `(a1 * a2) mod 65537` by the reduced limb multiply at single precision.
pub fn mul_mod_fma(a1: u32, a2: u32) -> (r: u32)
    requires
        a1 < MODULUS,
        a2 < MODULUS,
    ensures
        r == (a1 * a2) % 65537,
{
    proof {
        vstd::arithmetic::power2::lemma2_to64();
    }
    limb::mul_mod(a1 as u64, a2 as u64, MODULUS, limb::SINGLE_PRECISION) as u32
}

} // verus!
