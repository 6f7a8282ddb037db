//! The prime field of order `p = 2^21 - 9` on integer registers, reduced by
//! folding the bits above the 21st back in with `2^21 ≡ 9 (mod p)`.
use crate::fp20::double_precision;
use crate::fp20::single_precision;
use vstd::arithmetic::div_mod::*;
use vstd::prelude::*;

verus! {

/// The pseudo-Mersenne prime `p = 2^21 - 9 = 2097143`.
pub const MODULUS: u32 = 0b111111111111111110111;

/// `2^21 - p`: the next power of two above `p`, less `p`.
pub const C: u32 = 9;

/// Folds the bits of `x` above the 21st back onto its low 21 bits:
/// `(x / 2^21) * 9 + x % 2^21`, congruent to `x` modulo `p`.
pub open spec fn fold(x: int) -> int {
    (x / 0x20_0000) * 9 + x % 0x20_0000
}

proof fn lemma_fold(x: int)
    requires
        x >= 0,
    ensures
        fold(x) % (MODULUS as int) == x % (MODULUS as int),
        0 <= fold(x),
{
    let q = x / 0x20_0000;
    lemma_fundamental_div_mod(x, 0x20_0000);
    assert(x == fold(x) + 2097143 * q) by (nonlinear_arith)
        requires
            x == 0x20_0000 * q + x % 0x20_0000,
            fold(x) == q * 9 + x % 0x20_0000,
    ;
    lemma_mod_multiples_vanish(q, fold(x), MODULUS as int);
}

/// Reduces `a < 2^42`, the product of two values below `2^21`, modulo `p`:
/// two folds, then at most two corrections by `2^21 - p`.
pub fn reduce(a: u64) -> (r: u32)
    requires
        a < 0x400_0000_0000,
    ensures
        r == (a as int) % (MODULUS as int),
{
    proof {
        assert(a >> 21 == a / 0x20_0000 && a >> 21 < 0x20_0000) by (bit_vector)
            requires a < 0x400_0000_0000;
        assert(a & 0x1F_FFFF == a % 0x20_0000 && a & 0x1F_FFFF < 0x20_0000) by (bit_vector);
        lemma_fold(a as int);
    }
    let hi: u32 = (a >> 21) as u32;
    let lo: u32 = (a & 0x1F_FFFF) as u32;
    let b: u32 = hi * C + lo;
    assert(b == fold(a as int));
    proof {
        assert(b >> 21 == b / 0x20_0000 && b >> 21 < 10) by (bit_vector)
            requires b < 10 * 0x20_0000;
        assert(b & 0x1F_FFFF == b % 0x20_0000 && b & 0x1F_FFFF < 0x20_0000) by (bit_vector);
        lemma_fold(b as int);
    }
    let mut r: u32 = (b >> 21) * C + (b & 0x1F_FFFF);
    assert(r == fold(b as int));
    assert((r as int) % (MODULUS as int) == (a as int) % (MODULUS as int));
    let mut r_prime: u32 = r + C;
    if r_prime >= 0x20_0000 {
        proof {
            lemma_fundamental_div_mod_converse(r as int, MODULUS as int, 1, r - MODULUS);
        }
        r = r_prime - 0x20_0000;
        r_prime = r + C;
        if r_prime >= 0x20_0000 {
            return r_prime - 0x20_0000;
        }
    }
    proof {
        lemma_small_mod(r as nat, MODULUS as nat);
    }
    r
}

/// Every product of two values below `p` lies in the domain of [`reduce`],
/// which therefore returns exactly that product modulo `p`, from `0 * 0` up to
/// `(p - 1) * (p - 1)`.
pub proof fn lemma_products_reducible(a: nat, b: nat)
    requires
        a < MODULUS,
        b < MODULUS,
    ensures
        a * b < 0x400_0000_0000,
{
    assert(a * b < 0x400_0000_0000) by (nonlinear_arith)
        requires a < 2097143, b < 2097143;
}

/// An element of the field, held canonically in `[0, p)`.
#[derive(Clone, Copy, Debug, PartialEq, Eq, Structural)]
pub struct Fp(u32);

impl View for Fp {
    type V = nat;

    closed spec fn view(&self) -> nat {
        self.0 as nat
    }
}

impl Fp {
    #[verifier::type_invariant]
    spec fn canonical(self) -> bool {
        self.0 < MODULUS
    }

    /// The element `v`, which must already lie in `[0, p)`.
    pub fn new(v: u32) -> (r: Self)
        requires
            v < MODULUS,
        ensures
            r@ == v,
    {
        Fp(v)
    }

    /// The element that a uniformly drawn 32-bit `v` selects: `v mod p`.
    pub fn from_sample(v: u32) -> (r: Self)
        ensures
            r@ == v % MODULUS,
    {
        Fp(v % MODULUS)
    }

    /// `(self + rhs) mod p`, by one conditional subtraction of `p`.
    pub fn add(self, rhs: Self) -> (r: Self)
        ensures
            r@ == (self@ + rhs@) % (MODULUS as nat),
    {
        proof {
            use_type_invariant(self);
            use_type_invariant(rhs);
        }
        let a = self.0 + rhs.0;
        proof {
            if a >= MODULUS {
                lemma_fundamental_div_mod_converse(a as int, MODULUS as int, 1, a - MODULUS);
            } else {
                lemma_small_mod(a as nat, MODULUS as nat);
            }
        }
        Fp(
            if a >= MODULUS {
                a - MODULUS
            } else {
                a
            },
        )
    }

    /// `(self * rhs) mod p`: the exact 64-bit product, reduced.
    pub fn mul(self, rhs: Self) -> (r: Self)
        ensures
            r@ == (self@ * rhs@) % (MODULUS as nat),
    {
        proof {
            use_type_invariant(self);
            use_type_invariant(rhs);
            assert((self.0 as int) * (rhs.0 as int) < 0x400_0000_0000) by (nonlinear_arith)
                requires self.0 < MODULUS, rhs.0 < MODULUS;
        }
        let r = reduce(self.0 as u64 * rhs.0 as u64);
        proof {
            lemma_mod_bound(self.0 * rhs.0, MODULUS as int);
        }
        Fp(r)
    }

    /// The integer in `[0, p)` that stands for this element.
    pub fn to_u32(self) -> (r: u32)
        ensures
            r == self@,
            r < MODULUS,
    {
        proof {
            use_type_invariant(self);
        }
        self.0
    }
}

impl From<Fp> for u32 {
    fn from(value: Fp) -> (r: u32) {
        value.to_u32()
    }
}

impl vstd::std_specs::convert::FromSpecImpl<Fp> for u32 {
    open spec fn obeys_from_spec() -> bool {
        true
    }

    open spec fn from_spec(v: Fp) -> u32 {
        v@ as u32
    }
}

impl From<single_precision::Fp> for Fp {
    fn from(value: single_precision::Fp) -> (r: Fp) {
        let r = value.to_integer();
        proof {
            let c = choose|c: Fp| c@ == value@;
            assert(c@ == value@);
            assert(c == r);
        }
        r
    }
}

impl vstd::std_specs::convert::FromSpecImpl<single_precision::Fp> for Fp {
    open spec fn obeys_from_spec() -> bool {
        true
    }

    open spec fn from_spec(v: single_precision::Fp) -> Fp {
        choose|r: Fp| r@ == v@
    }
}

impl From<double_precision::Fp> for Fp {
    fn from(value: double_precision::Fp) -> (r: Fp) {
        let r = value.to_integer();
        proof {
            let c = choose|c: Fp| c@ == value@;
            assert(c@ == value@);
            assert(c == r);
        }
        r
    }
}

impl vstd::std_specs::convert::FromSpecImpl<double_precision::Fp> for Fp {
    open spec fn obeys_from_spec() -> bool {
        true
    }

    open spec fn from_spec(v: double_precision::Fp) -> Fp {
        choose|r: Fp| r@ == v@
    }
}

} // verus!
