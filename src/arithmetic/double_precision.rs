//! Integers on double-precision registers (53 significant bits): a 32-bit
//! integer in one limb.
use crate::limb::{add_mod, mul_mod, DOUBLE_PRECISION};
use vstd::arithmetic::power2::*;
use vstd::prelude::*;

verus! {

/// Modulus of a 32-bit limb.
pub const LIMB_MODULUS: u64 = 0x1_0000_0000;

/// A 32-bit unsigned integer held in `[0, 2^32)`.
#[derive(Clone, Copy, Debug, PartialEq, Eq, Structural)]
pub struct U32(u64);

impl View for U32 {
    type V = nat;

    closed spec fn view(&self) -> nat {
        self.0 as nat
    }
}

impl U32 {
    #[verifier::type_invariant]
    spec fn reduced(self) -> bool {
        self.0 < LIMB_MODULUS
    }

    pub fn new(v: u32) -> (r: Self)
        ensures
            r@ == v,
    {
        U32(v as u64)
    }

    /// `(self + rhs) mod 2^32`.
    pub fn add(self, rhs: Self) -> (r: Self)
        ensures
            r@ == (self@ + rhs@) % 0x1_0000_0000,
    {
        proof {
            use_type_invariant(self);
            use_type_invariant(rhs);
        }
        U32(add_mod(self.0, rhs.0, LIMB_MODULUS))
    }

    /// `(self * rhs) mod 2^32`, by the reduced limb multiply at double precision.
    pub fn mul(self, rhs: Self) -> (r: Self)
        ensures
            r@ == (self@ * rhs@) % 0x1_0000_0000,
    {
        proof {
            use_type_invariant(self);
            use_type_invariant(rhs);
            lemma2_to64();
            lemma2_to64_rest();
        }
        U32(mul_mod(self.0, rhs.0, LIMB_MODULUS, DOUBLE_PRECISION))
    }

    pub fn to_u32(self) -> (r: u32)
        ensures
            r == self@,
    {
        proof {
            use_type_invariant(self);
        }
        self.0 as u32
    }
}

} // verus!
