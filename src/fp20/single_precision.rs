//! The prime field of order `p = 2^21 - 9` on single-precision registers
//! (24 significant bits), multiplied by the reduced limb multiply.
use crate::fp20::integer;
use crate::fp20::integer::MODULUS;
use crate::limb::{add_mod, mul_mod, SINGLE_PRECISION};
use vstd::arithmetic::power2::*;
use vstd::prelude::*;

verus! {

/// An element of the field, held canonically in `[0, p)`.
#[derive(Clone, Copy, Debug, PartialEq, Eq, Structural)]
pub struct Fp(u64);

impl View for Fp {
    type V = nat;

    closed spec fn view(&self) -> nat {
        self.0 as nat
    }
}

impl Fp {
    #[verifier::type_invariant]
    spec fn canonical(self) -> bool {
        self.0 < MODULUS
    }

    /// The element `v`, which must already lie in `[0, p)`.
    pub fn new(v: u32) -> (r: Self)
        requires
            v < MODULUS,
        ensures
            r@ == v,
    {
        Fp(v as u64)
    }

    /// The element that a uniformly drawn 32-bit `v` selects: `v mod p`.
    pub fn from_sample(v: u32) -> (r: Self)
        ensures
            r@ == v % MODULUS,
    {
        Fp((v % MODULUS) as u64)
    }

    /// `(self + rhs) mod p`.
    pub fn add(self, rhs: Self) -> (r: Self)
        ensures
            r@ == (self@ + rhs@) % (MODULUS as nat),
    {
        proof {
            use_type_invariant(self);
            use_type_invariant(rhs);
        }
        Fp(add_mod(self.0, rhs.0, MODULUS as u64))
    }

    /// `(self * rhs) mod p`.
    pub fn mul(self, rhs: Self) -> (r: Self)
        ensures
            r@ == (self@ * rhs@) % (MODULUS as nat),
    {
        proof {
            use_type_invariant(self);
            use_type_invariant(rhs);
            lemma2_to64();
        }
        Fp(mul_mod(self.0, rhs.0, MODULUS as u64, SINGLE_PRECISION))
    }

    /// The integer in `[0, p)` that stands for this element.
    pub fn to_u32(self) -> (r: u32)
        ensures
            r == self@,
            r < MODULUS,
    {
        proof {
            use_type_invariant(self);
        }
        self.0 as u32
    }

    /// The same element on integer registers.
    pub fn to_integer(self) -> (r: integer::Fp)
        ensures
            r@ == self@,
    {
        integer::Fp::new(self.to_u32())
    }

    /// The element that `v`, held on integer registers, stands for.
    pub fn from_integer(v: integer::Fp) -> (r: Self)
        ensures
            r@ == v@,
    {
        Fp::new(v.to_u32())
    }
}

impl From<integer::Fp> for Fp {
    fn from(value: integer::Fp) -> (r: Fp) {
        let r = Fp::from_integer(value);
        proof {
            let c = choose|c: Fp| c@ == value@;
            assert(c@ == value@);
            assert(c == r);
        }
        r
    }
}

impl vstd::std_specs::convert::FromSpecImpl<integer::Fp> for Fp {
    open spec fn obeys_from_spec() -> bool {
        true
    }

    open spec fn from_spec(v: integer::Fp) -> Fp {
        choose|r: Fp| r@ == v@
    }
}

impl From<Fp> for u32 {
    fn from(value: Fp) -> (r: u32) {
        value.to_u32()
    }
}

impl vstd::std_specs::convert::FromSpecImpl<Fp> for u32 {
    open spec fn obeys_from_spec() -> bool {
        true
    }

    open spec fn from_spec(v: Fp) -> u32 {
        v@ as u32
    }
}

} // verus!
