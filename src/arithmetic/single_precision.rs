//! Integers on single-precision registers (24 significant bits): 16-bit limbs,
//! a 32-bit integer of two such limbs, and a 31-bit integer split into an
//! 11-bit and a 20-bit limb.
use crate::arithmetic::lemma_mul_bytes;
use crate::limb::{add_mod, mul_mod, SINGLE_PRECISION};
use vstd::arithmetic::div_mod::*;
use vstd::arithmetic::power2::*;
use vstd::prelude::*;

verus! {

/// Modulus of a 16-bit limb.
pub const LIMB_MODULUS: u64 = 0x1_0000;

/// A 16-bit unsigned integer held in `[0, 2^16)`.
#[derive(Clone, Copy, Debug, PartialEq, Eq, Structural)]
pub struct U16(u64);

impl View for U16 {
    type V = nat;

    closed spec fn view(&self) -> nat {
        self.0 as nat
    }
}

impl U16 {
    #[verifier::type_invariant]
    spec fn reduced(self) -> bool {
        self.0 < LIMB_MODULUS
    }

    pub fn new(v: u16) -> (r: Self)
        ensures
            r@ == v,
    {
        U16(v as u64)
    }

    /// `(self + rhs) mod 2^16`.
    pub fn add(self, rhs: Self) -> (r: Self)
        ensures
            r@ == (self@ + rhs@) % 0x1_0000,
    {
        proof {
            use_type_invariant(self);
            use_type_invariant(rhs);
        }
        U16(add_mod(self.0, rhs.0, LIMB_MODULUS))
    }

    /// `(self * rhs) mod 2^16`, by the reduced limb multiply at single precision.
    pub fn mul(self, rhs: Self) -> (r: Self)
        ensures
            r@ == (self@ * rhs@) % 0x1_0000,
    {
        proof {
            use_type_invariant(self);
            use_type_invariant(rhs);
            lemma2_to64();
        }
        U16(mul_mod(self.0, rhs.0, LIMB_MODULUS, SINGLE_PRECISION))
    }

    pub fn to_u16(self) -> (r: u16)
        ensures
            r == self@,
    {
        proof {
            use_type_invariant(self);
        }
        self.0 as u16
    }
}

/// The exact product of two bytes, as the limb multiply modulo `2^16` gives it.
fn byte_product(a: u64, b: u64) -> (r: u64)
    requires
        a < 256,
        b < 256,
    ensures
        r == a * b,
        r < 0x1_0000,
{
    proof {
        lemma2_to64();
        assert(a * b < 0x1_0000) by (nonlinear_arith)
            requires a < 256, b < 256, a >= 0, b >= 0;
        lemma_small_mod((a * b) as nat, 0x1_0000);
    }
    mul_mod(a, b, LIMB_MODULUS, SINGLE_PRECISION)
}

proof fn lemma_byte_split(p: int)
    requires
        0 <= p < 0x1_0000,
    ensures
        p == p % 256 + 256 * (p / 256),
        0 <= p % 256 < 256,
        0 <= p / 256 < 256,
{
    lemma_fundamental_div_mod(p, 256);
}

/// A 32-bit unsigned integer as two 16-bit limbs, `x1 * 2^16 + x0`.
#[derive(Clone, Copy, Debug, PartialEq, Eq)]
pub struct U32([U16; 2]);

impl View for U32 {
    type V = nat;

    closed spec fn view(&self) -> nat {
        self.0[0]@ + 0x1_0000 * self.0[1]@
    }
}

impl U32 {
    #[verifier::type_invariant]
    spec fn reduced(self) -> bool {
        &&& self.0[0].0 < LIMB_MODULUS
        &&& self.0[1].0 < LIMB_MODULUS
    }

    pub fn new(v: u32) -> (r: Self)
        ensures
            r@ == v,
    {
        let lo: u32 = v & 0xFFFF;
        let hi: u32 = v >> 16;
        proof {
            assert(v == lo + 0x1_0000 * hi && lo < 0x1_0000 && hi < 0x1_0000) by (bit_vector)
                requires
                    lo == v & 0xFFFF,
                    hi == v >> 16,
            ;
        }
        U32([U16::new(lo as u16), U16::new(hi as u16)])
    }

    /// `(self + rhs) mod 2^32`: the low limb's carry of at most one goes into
    /// the high limb, whose own carry is dropped.
    pub fn add(self, rhs: Self) -> (r: Self)
        ensures
            r@ == (self@ + rhs@) % 0x1_0000_0000,
    {
        proof {
            use_type_invariant(self);
            use_type_invariant(rhs);
        }
        let mut l0: u64 = self.0[0].0 + rhs.0[0].0;
        let mut l1: u64 = self.0[1].0 + rhs.0[1].0;
        let ghost sum: int = self@ + rhs@ as int;
        if l0 >= LIMB_MODULUS {
            l0 = l0 - LIMB_MODULUS;
            l1 = l1 + 1;
        }
        let ghost q: int = if l1 >= LIMB_MODULUS { 1 } else { 0 };
        if l1 >= LIMB_MODULUS {
            l1 = l1 - LIMB_MODULUS;
        }
        let r = U32([U16(l0), U16(l1)]);
        proof {
            assert(sum == r@ + q * 0x1_0000_0000);
            lemma_fundamental_div_mod_converse(sum, 0x1_0000_0000, q, r@ as int);
        }
        r
    }

    /// `(self * rhs) mod 2^32`, by schoolbook multiplication on bytes.
    ///
    /// Each 16-bit limb is split into two bytes `a0..a3` (least significant
    /// first), so that every byte product is exact on a 24-bit register. Only the
    /// ten products `ai * bj` with `i + j < 4` reach below `2^32`; each is formed
    /// by the limb multiply modulo `2^16`. Their low and high bytes are summed
    /// into four byte-aligned accumulators, which fold into the two limbs of the
    /// result with one final wraparound correction.
    pub fn mul(self, rhs: Self) -> (r: Self)
        ensures
            r@ == (self@ * rhs@) % 0x1_0000_0000,
    {
        proof {
            use_type_invariant(self);
            use_type_invariant(rhs);
        }
        let x0 = self.0[0].0;
        let x1 = self.0[1].0;
        let y0 = rhs.0[0].0;
        let y1 = rhs.0[1].0;
        let a0 = x0 % 256;
        let a1 = x0 / 256;
        let a2 = x1 % 256;
        let a3 = x1 / 256;
        let b0 = y0 % 256;
        let b1 = y0 / 256;
        let b2 = y1 % 256;
        let b3 = y1 / 256;

        let p00 = byte_product(a0, b0);
        let p01 = byte_product(a0, b1);
        let p02 = byte_product(a0, b2);
        let p03 = byte_product(a0, b3);
        let p10 = byte_product(a1, b0);
        let p11 = byte_product(a1, b1);
        let p12 = byte_product(a1, b2);
        let p20 = byte_product(a2, b0);
        let p21 = byte_product(a2, b1);
        let p30 = byte_product(a3, b0);
        proof {
            lemma_byte_split(x0 as int);
            lemma_byte_split(x1 as int);
            lemma_byte_split(y0 as int);
            lemma_byte_split(y1 as int);
            lemma_byte_split(p00 as int);
            lemma_byte_split(p01 as int);
            lemma_byte_split(p02 as int);
            lemma_byte_split(p03 as int);
            lemma_byte_split(p10 as int);
            lemma_byte_split(p11 as int);
            lemma_byte_split(p12 as int);
            lemma_byte_split(p20 as int);
            lemma_byte_split(p21 as int);
            lemma_byte_split(p30 as int);
        }

        // accumulators of weight 2^0, 2^8, 2^16 and 2^24
        let c0 = p00 % 256;
        let c1 = p01 % 256 + p00 / 256 + p10 % 256;
        let c2 = p02 % 256 + p01 / 256 + p11 % 256 + p10 / 256 + p20 % 256;
        let c3 = p03 % 256 + p02 / 256 + p12 % 256 + p11 / 256 + p21 % 256 + p20 / 256 + p30
            % 256;

        let low = c1 * 256 + c0;
        let high = c3 * 256 + c2;
        let l0 = low % LIMB_MODULUS;
        let mut l1 = high % LIMB_MODULUS + low / LIMB_MODULUS;
        let ghost wrapped: int = if l1 >= LIMB_MODULUS { 1 } else { 0 };
        if l1 >= LIMB_MODULUS {
            l1 = l1 - LIMB_MODULUS;
        }
        proof {
            lemma_mul_bytes(
                a0 as int,
                a1 as int,
                a2 as int,
                a3 as int,
                b0 as int,
                b1 as int,
                b2 as int,
                b3 as int,
            );
            let t = c0 + 256 * c1 + 0x1_0000 * c2 + 0x100_0000 * c3;
            let dropped = p03 / 256 + p12 / 256 + p21 / 256 + p30 / 256;
            assert(t + 0x1_0000_0000 * dropped == p00 + 256 * (p01 + p10) + 0x1_0000 * (p02 + p11
                + p20) + 0x100_0000 * (p03 + p12 + p21 + p30));
            lemma_fundamental_div_mod(low as int, 0x1_0000);
            lemma_fundamental_div_mod(high as int, 0x1_0000);
            let k = (a1 * b3 + a2 * b2 + a3 * b1) + 256 * (a2 * b3 + a3 * b2) + 0x1_0000 * (a3
                * b3) + dropped + high / 0x1_0000 + wrapped;
            assert(self@ * rhs@ == (l0 + 0x1_0000 * l1) + 0x1_0000_0000 * k);
            lemma_fundamental_div_mod_converse(
                (self@ * rhs@) as int,
                0x1_0000_0000,
                k,
                l0 + 0x1_0000 * l1,
            );
        }
        U32([U16(l0), U16(l1)])
    }

    pub fn to_u32(self) -> (r: u32)
        ensures
            r == self@,
    {
        proof {
            use_type_invariant(self);
        }
        (self.0[0].0 + 0x1_0000 * self.0[1].0) as u32
    }
}

/// Every integer that a [`U31`] can stand for, one below `2^31`, is kept whole
/// by [`U31::new`], which keeps the low 31 bits: it comes back unchanged from
/// [`U31::to_u32`].
pub proof fn lemma_u31_round_trip(v: u32)
    requires
        v < 0x8000_0000,
    ensures
        v % 0x8000_0000 == v,
{
    lemma_small_mod(v as nat, 0x8000_0000);
}

/// A 31-bit unsigned integer as `x1 * 2^11 + x0`, with `x0 < 2^11`, `x1 < 2^20`.
#[derive(Clone, Copy, Debug, PartialEq, Eq)]
pub struct U31([u64; 2]);

/// Modulus of the low limb of a [`U31`].
pub const LOW_MODULUS: u64 = 0x800;

/// Modulus of the high limb of a [`U31`].
pub const HIGH_MODULUS: u64 = 0x10_0000;

impl View for U31 {
    type V = nat;

    closed spec fn view(&self) -> nat {
        (self.0[0] + 0x800 * self.0[1]) as nat
    }
}

impl U31 {
    #[verifier::type_invariant]
    spec fn reduced(self) -> bool {
        &&& self.0[0] < LOW_MODULUS
        &&& self.0[1] < HIGH_MODULUS
    }

    /// The low 31 bits of `v`.
    pub fn new(v: u32) -> (r: Self)
        ensures
            r@ == v % 0x8000_0000,
    {
        let lo: u32 = v & 0x7FF;
        let hi: u32 = (v >> 11) & 0xF_FFFF;
        proof {
            assert(v % 0x8000_0000 == lo + 0x800 * hi && lo < 0x800 && hi < 0x10_0000)
                by (bit_vector)
                requires
                    lo == v & 0x7FF,
                    hi == (v >> 11) & 0xF_FFFF,
            ;
        }
        U31([lo as u64, hi as u64])
    }

    /// `(self + rhs) mod 2^31`.
    pub fn add(self, rhs: Self) -> (r: Self)
        ensures
            r@ == (self@ + rhs@) % 0x8000_0000,
    {
        proof {
            use_type_invariant(self);
            use_type_invariant(rhs);
        }
        let mut l0: u64 = self.0[0] + rhs.0[0];
        let mut l1: u64 = self.0[1] + rhs.0[1];
        let ghost sum: int = self@ + rhs@ as int;
        if l0 >= LOW_MODULUS {
            l0 = l0 - LOW_MODULUS;
            l1 = l1 + 1;
        }
        let ghost q: int = if l1 >= HIGH_MODULUS { 1 } else { 0 };
        if l1 >= HIGH_MODULUS {
            l1 = l1 - HIGH_MODULUS;
        }
        let r = U31([l0, l1]);
        proof {
            assert(sum == r@ + q * 0x8000_0000);
            lemma_fundamental_div_mod_converse(sum, 0x8000_0000, q, r@ as int);
        }
        r
    }

    /// `(self * rhs) mod 2^31`.
    ///
    /// The low limbs' product (exact on a 24-bit register) gives the low limb and
    /// a carry; the cross products are formed by the limb multiply modulo `2^20`.
    /// The high limbs' product has weight `2^22`, so only its value modulo `2^9`
    /// counts: it enters as the product of the high limbs' low nine bits,
    /// rescaled by `2^6` and `2^5` so that its weight becomes `2^11`. The four
    /// contributions to the high limb are summed by reduced additions.
    pub fn mul(self, rhs: Self) -> (r: Self)
        ensures
            r@ == (self@ * rhs@) % 0x8000_0000,
    {
        proof {
            use_type_invariant(self);
            use_type_invariant(rhs);
            lemma2_to64();
        }
        let x0 = self.0[0];
        let x1 = self.0[1];
        let y0 = rhs.0[0];
        let y1 = rhs.0[1];
        proof {
            assert(x0 * y0 < 0x40_0000) by (nonlinear_arith)
                requires x0 < 0x800, y0 < 0x800;
        }
        let t = x0 * y0;
        let l0 = t % LOW_MODULUS;
        let carry = t / LOW_MODULUS;
        let m1 = mul_mod(x0, y1, HIGH_MODULUS, SINGLE_PRECISION);
        let m2 = mul_mod(x1, y0, HIGH_MODULUS, SINGLE_PRECISION);
        let u = (x1 % 512) * 64;
        let v = (y1 % 512) * 32;
        let m3 = mul_mod(u, v, HIGH_MODULUS, SINGLE_PRECISION);
        let s1 = add_mod(carry, m1, HIGH_MODULUS);
        let s2 = add_mod(s1, m2, HIGH_MODULUS);
        let l1 = add_mod(s2, m3, HIGH_MODULUS);
        proof {
            let hm = HIGH_MODULUS as int;
            let (x0, x1, y0, y1) = (x0 as int, x1 as int, y0 as int, y1 as int);
            lemma_fundamental_div_mod(t as int, 0x800);
            lemma_small_mod(carry as nat, HIGH_MODULUS as nat);
            lemma_add_mod_noop(carry as int, x0 * y1, hm);
            lemma_add_mod_noop(carry + x0 * y1, x1 * y0, hm);
            lemma_add_mod_noop(carry + x0 * y1 + x1 * y0, u * v, hm);
            // the high limbs' product, folded to its low nine bits
            let (xh, xl, yh, yl) = (x1 / 512, x1 % 512, y1 / 512, y1 % 512);
            lemma_fundamental_div_mod(x1, 512);
            lemma_fundamental_div_mod(y1, 512);
            let w = xh * y1 + xl * yh;
            assert(0x800 * (x1 * y1) == u * v + hm * w) by (nonlinear_arith)
                requires
                    x1 == 512 * xh + xl,
                    y1 == 512 * yh + yl,
                    u == xl * 64,
                    v == yl * 32,
                    w == xh * y1 + xl * yh,
                    hm == 0x10_0000,
            ;
            let sum = carry + x0 * y1 + x1 * y0;
            lemma_mod_multiples_vanish(w, sum + u * v, hm);
            assert(l1 == (sum + 0x800 * (x1 * y1)) % hm);
            lemma_fundamental_div_mod(sum + 0x800 * (x1 * y1), hm);
            let k = (sum + 0x800 * (x1 * y1)) / hm;
            assert((x0 + 0x800 * x1) * (y0 + 0x800 * y1) == t + 0x800 * (x0 * y1 + x1 * y0)
                + 0x40_0000 * (x1 * y1)) by (nonlinear_arith)
                requires t == x0 * y0;
            assert(self@ * rhs@ == l0 + 0x800 * l1 + 0x8000_0000 * k);
            lemma_fundamental_div_mod_converse(
                (self@ * rhs@) as int,
                0x8000_0000,
                k,
                l0 + 0x800 * l1,
            );
        }
        U31([l0, l1])
    }

    pub fn to_u32(self) -> (r: u32)
        ensures
            r == self@,
    {
        proof {
            use_type_invariant(self);
        }
        (self.0[0] + 0x800 * self.0[1]) as u32
    }
}

} // verus!
