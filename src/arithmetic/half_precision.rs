//! Integers on half-precision registers (11 significant bits): 8-bit limbs, and
//! a 32-bit integer of four such limbs.
use crate::arithmetic::lemma_mul_bytes;
use crate::limb::{add_mod, mul_mod, HALF_PRECISION};
use vstd::arithmetic::div_mod::*;
use vstd::arithmetic::power2::*;
use vstd::prelude::*;

verus! {

/// Modulus of an 8-bit limb.
pub const LIMB_MODULUS: u64 = 256;

/// An 8-bit unsigned integer held in `[0, 256)`.
#[derive(Clone, Copy, Debug, PartialEq, Eq, Structural)]
pub struct U8(u64);

impl View for U8 {
    type V = nat;

    closed spec fn view(&self) -> nat {
        self.0 as nat
    }
}

impl U8 {
    #[verifier::type_invariant]
    spec fn reduced(self) -> bool {
        self.0 < LIMB_MODULUS
    }

    pub fn new(v: u8) -> (r: Self)
        ensures
            r@ == v,
    {
        U8(v as u64)
    }

    /// `(self + rhs) mod 256`.
    pub fn add(self, rhs: Self) -> (r: Self)
        ensures
            r@ == (self@ + rhs@) % 256,
    {
        proof {
            use_type_invariant(self);
            use_type_invariant(rhs);
        }
        let s = add_mod(self.0, rhs.0, LIMB_MODULUS);
        U8(s)
    }

    /// `(self * rhs) mod 256`, by the reduced limb multiply at half precision.
    pub fn mul(self, rhs: Self) -> (r: Self)
        ensures
            r@ == (self@ * rhs@) % 256,
    {
        proof {
            use_type_invariant(self);
            use_type_invariant(rhs);
            lemma2_to64();
        }
        let p = mul_mod(self.0, rhs.0, LIMB_MODULUS, HALF_PRECISION);
        U8(p)
    }

    pub fn to_u8(self) -> (r: u8)
        ensures
            r == self@,
    {
        proof {
            use_type_invariant(self);
        }
        self.0 as u8
    }
}

impl From<U8> for u8 {
    fn from(v: U8) -> (r: u8) {
        v.to_u8()
    }
}

impl vstd::std_specs::convert::FromSpecImpl<U8> for u8 {
    open spec fn obeys_from_spec() -> bool {
        true
    }

    open spec fn from_spec(v: U8) -> u8 {
        v@ as u8
    }
}

/// The exact product of two 4-bit digits, as the limb multiply modulo `256` gives it.
fn nibble_product(a: u64, b: u64) -> (r: u64)
    requires
        a < 16,
        b < 16,
    ensures
        r == a * b,
        r <= 225,
{
    proof {
        lemma2_to64();
        assert(a * b <= 225) by (nonlinear_arith)
            requires a < 16, b < 16, a >= 0, b >= 0;
        lemma_small_mod((a * b) as nat, 256);
    }
    mul_mod(a, b, LIMB_MODULUS, HALF_PRECISION)
}

/// The exact 16-bit product of two bytes as its low and high byte.
///
/// Each byte is split into two 4-bit digits; the four digit products, their
/// partial sums and the carries all stay below `2^11`, so a half-precision
/// register holds every intermediate value exactly.
fn byte_product(a: u64, b: u64) -> (r: (u64, u64))
    requires
        a < 256,
        b < 256,
    ensures
        a * b == r.0 + 256 * r.1,
        r.0 < 256,
        r.1 < 256,
{
    let a0 = a % 16;
    let a1 = a / 16;
    let b0 = b % 16;
    let b1 = b / 16;
    let p00 = nibble_product(a0, b0);
    let p01 = nibble_product(a0, b1);
    let p10 = nibble_product(a1, b0);
    let p11 = nibble_product(a1, b1);
    let mid = p01 + p10;
    let t = p00 + 16 * (mid % 16);
    let lo = t % 256;
    let hi = p11 + mid / 16 + t / 256;
    proof {
        lemma_fundamental_div_mod(a as int, 16);
        lemma_fundamental_div_mod(b as int, 16);
        lemma_fundamental_div_mod(mid as int, 16);
        lemma_fundamental_div_mod(t as int, 256);
        assert(a * b == p00 + 16 * mid + 256 * p11) by (nonlinear_arith)
            requires
                a == a0 + 16 * a1,
                b == b0 + 16 * b1,
                p00 == a0 * b0,
                p01 == a0 * b1,
                p10 == a1 * b0,
                p11 == a1 * b1,
                mid == p01 + p10,
        ;
        assert(a * b < 0x1_0000) by (nonlinear_arith)
            requires a < 256, b < 256, a >= 0, b >= 0;
    }
    (lo, hi)
}

/// A 32-bit unsigned integer as four 8-bit limbs, least significant first.
#[derive(Clone, Copy, Debug, PartialEq, Eq)]
pub struct U32([U8; 4]);

/// The integer that limbs `l`, least significant first, stand for in base 256.
pub open spec fn limbs_value(l0: nat, l1: nat, l2: nat, l3: nat) -> nat {
    l0 + 256 * l1 + 0x1_0000 * l2 + 0x100_0000 * l3
}

impl View for U32 {
    type V = nat;

    closed spec fn view(&self) -> nat {
        limbs_value(self.0[0]@, self.0[1]@, self.0[2]@, self.0[3]@)
    }
}

impl U32 {
    #[verifier::type_invariant]
    spec fn reduced(self) -> bool {
        &&& self.0[0].0 < LIMB_MODULUS
        &&& self.0[1].0 < LIMB_MODULUS
        &&& self.0[2].0 < LIMB_MODULUS
        &&& self.0[3].0 < LIMB_MODULUS
    }

    pub fn new(v: u32) -> (r: Self)
        ensures
            r@ == v,
    {
        let b0: u32 = v & 0xFF;
        let b1: u32 = (v >> 8) & 0xFF;
        let b2: u32 = (v >> 16) & 0xFF;
        let b3: u32 = (v >> 24) & 0xFF;
        proof {
            assert(v == b0 + 256 * b1 + 0x1_0000 * b2 + 0x100_0000 * b3) by (bit_vector)
                requires
                    b0 == v & 0xFF,
                    b1 == (v >> 8) & 0xFF,
                    b2 == (v >> 16) & 0xFF,
                    b3 == (v >> 24) & 0xFF,
            ;
            assert(b0 < 256 && b1 < 256 && b2 < 256 && b3 < 256) by (bit_vector)
                requires
                    b0 == v & 0xFF,
                    b1 == (v >> 8) & 0xFF,
                    b2 == (v >> 16) & 0xFF,
                    b3 == (v >> 24) & 0xFF,
            ;
        }
        U32([U8::new(b0 as u8), U8::new(b1 as u8), U8::new(b2 as u8), U8::new(b3 as u8)])
    }

    /// `(self + rhs) mod 2^32`: limb sums rippled from the least significant
    /// limb up, each carrying at most one unit; the carry out of the top limb
    /// is dropped.
    pub fn add(self, rhs: Self) -> (r: Self)
        ensures
            r@ == (self@ + rhs@) % 0x1_0000_0000,
    {
        let a = self.0;
        let b = rhs.0;
        proof {
            use_type_invariant(self);
            use_type_invariant(rhs);
        }
        let mut l0: u64 = a[0].0 + b[0].0;
        let mut l1: u64 = a[1].0 + b[1].0;
        let mut l2: u64 = a[2].0 + b[2].0;
        let mut l3: u64 = a[3].0 + b[3].0;
        let ghost sum: int = self@ + rhs@ as int;
        assert(sum == l0 + 256 * l1 + 0x1_0000 * l2 + 0x100_0000 * l3);
        if l0 >= LIMB_MODULUS {
            l0 = l0 - LIMB_MODULUS;
            l1 = l1 + 1;
        }
        if l1 >= LIMB_MODULUS {
            l1 = l1 - LIMB_MODULUS;
            l2 = l2 + 1;
        }
        if l2 >= LIMB_MODULUS {
            l2 = l2 - LIMB_MODULUS;
            l3 = l3 + 1;
        }
        let ghost q: int = if l3 >= LIMB_MODULUS { 1 } else { 0 };
        if l3 >= LIMB_MODULUS {
            l3 = l3 - LIMB_MODULUS;
        }
        let r = U32([U8(l0), U8(l1), U8(l2), U8(l3)]);
        proof {
            assert(sum == r@ + q * 0x1_0000_0000);
            lemma_fundamental_div_mod_converse(sum, 0x1_0000_0000, q, r@ as int);
        }
        r
    }

    /// `(self * rhs) mod 2^32`, by schoolbook multiplication on the limbs.
    ///
    /// Only the ten limb products `ai * bj` with `i + j < 4` reach below `2^32`.
    /// Each is formed exactly as a low and a high byte; these are summed into
    /// four byte-aligned accumulators (each below `2^11`), whose carries are
    /// then rippled up, and the carry out of the top limb is dropped.
    pub fn mul(self, rhs: Self) -> (r: Self)
        ensures
            r@ == (self@ * rhs@) % 0x1_0000_0000,
    {
        proof {
            use_type_invariant(self);
            use_type_invariant(rhs);
        }
        let a = self.0;
        let b = rhs.0;
        let (a0, a1, a2, a3) = (a[0].0, a[1].0, a[2].0, a[3].0);
        let (b0, b1, b2, b3) = (b[0].0, b[1].0, b[2].0, b[3].0);

        let (lo00, hi00) = byte_product(a0, b0);
        let (lo01, hi01) = byte_product(a0, b1);
        let (lo02, hi02) = byte_product(a0, b2);
        let (lo03, hi03) = byte_product(a0, b3);
        let (lo10, hi10) = byte_product(a1, b0);
        let (lo11, hi11) = byte_product(a1, b1);
        let (lo12, hi12) = byte_product(a1, b2);
        let (lo20, hi20) = byte_product(a2, b0);
        let (lo21, hi21) = byte_product(a2, b1);
        let (lo30, hi30) = byte_product(a3, b0);

        // accumulators of weight 2^0, 2^8, 2^16 and 2^24
        let c0 = lo00;
        let c1 = lo01 + hi00 + lo10;
        let c2 = lo02 + hi01 + lo11 + hi10 + lo20;
        let c3 = lo03 + hi02 + lo12 + hi11 + lo21 + hi20 + lo30;

        let l0 = c0;
        let l1 = c1 % LIMB_MODULUS;
        let c2 = c2 + c1 / LIMB_MODULUS;
        let l2 = c2 % LIMB_MODULUS;
        let c3 = c3 + c2 / LIMB_MODULUS;
        let l3 = c3 % LIMB_MODULUS;
        proof {
            lemma_mul_bytes(
                a0 as int,
                a1 as int,
                a2 as int,
                a3 as int,
                b0 as int,
                b1 as int,
                b2 as int,
                b3 as int,
            );
            lemma_fundamental_div_mod(c1 as int, 256);
            lemma_fundamental_div_mod(c2 as int, 256);
            lemma_fundamental_div_mod(c3 as int, 256);
            let dropped = hi03 + hi12 + hi21 + hi30 + c3 / 256;
            let k = (a1 * b3 + a2 * b2 + a3 * b1) + 256 * (a2 * b3 + a3 * b2) + 0x1_0000 * (a3
                * b3) + dropped;
            assert(self@ * rhs@ == limbs_value(l0 as nat, l1 as nat, l2 as nat, l3 as nat)
                + 0x1_0000_0000 * k);
            lemma_fundamental_div_mod_converse(
                (self@ * rhs@) as int,
                0x1_0000_0000,
                k,
                limbs_value(l0 as nat, l1 as nat, l2 as nat, l3 as nat) as int,
            );
        }
        U32([U8(l0), U8(l1), U8(l2), U8(l3)])
    }

    pub fn to_u32(self) -> (r: u32)
        ensures
            r == self@,
    {
        proof {
            use_type_invariant(self);
        }
        let l = self.0;
        (l[0].0 + 256 * l[1].0 + 0x1_0000 * l[2].0 + 0x100_0000 * l[3].0) as u32
    }
}

} // verus!
