//! Extended Euclidean algorithm on 64-bit integers.
use vstd::arithmetic::div_mod::*;
use vstd::prelude::*;

verus! {

/// The greatest common divisor of `a` and `b`, by Euclid's recurrence.
pub open spec fn gcd(a: nat, b: nat) -> nat
    decreases a,
{
    if a == 0 {
        b
    } else {
        gcd(b % a, a)
    }
}

/// Returns `(gcd(a, b), x, y)` with Bézout coefficients `x`, `y` such that
/// `a * x + b * y == gcd(a, b)`; the coefficients are computed with wrapping
/// 64-bit arithmetic, so the identity holds modulo `2^64`.
pub fn xgcd(a: u64, b: u64) -> (r: (u64, u64, u64))
    ensures
        r.0 == gcd(a as nat, b as nat),
        (a * r.1 + b * r.2) % 0x1_0000_0000_0000_0000 == r.0,
    decreases a,
{
    if a == 0 {
        proof {
            lemma_small_mod(b as nat, 0x1_0000_0000_0000_0000);
        }
        (b, 0, 1)
    } else {
        let (gcd, x, y) = xgcd(b % a, a);
        let q = b / a;
        let p = q.wrapping_mul(x);
        let x_new = y.wrapping_sub(p);
        proof {
            let n: int = 0x1_0000_0000_0000_0000;
            let (a, b, x, y, q) = (a as int, b as int, x as int, y as int, q as int);
            let rr = b % a;
            lemma_fundamental_div_mod(b, a);
            lemma_fundamental_div_mod(q * x, n);
            let c: int = if y - p < 0 { 1 } else { 0 };
            let t = (q * x) / n + c;
            assert(x_new == y - q * x + n * t);
            assert(a * x_new + b * x == a * y + rr * x + n * (a * t)) by (nonlinear_arith)
                requires
                    x_new == y - q * x + n * t,
                    b == a * q + rr,
            ;
            lemma_mod_multiples_vanish(a * t, a * y + rr * x, n);
        }
        (gcd, x_new, x)
    }
}

} // verus!
