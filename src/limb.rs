//! Reduced modular arithmetic on single limbs.
//!
//! A limb is a non-negative integer held exactly by a floating-point register of
//! a given precision (the number of significant bits). The product of two limbs
//! is split, as a fused multiply-add does, into its value rounded to that
//! precision and the exact rounding error; the reduction works on those two
//! parts alone.
use vstd::arithmetic::div_mod::*;
use vstd::arithmetic::mul::*;
use vstd::arithmetic::power2::*;
use vstd::prelude::*;

verus! {

/// Significant bits of a half-precision register.
pub const HALF_PRECISION: u32 = 11;

/// Significant bits of a single-precision register.
pub const SINGLE_PRECISION: u32 = 24;

/// Significant bits of a double-precision register.
pub const DOUBLE_PRECISION: u32 = 53;

/// Number of low bits of `x` that a register with `p` significant bits cannot hold.
pub open spec fn ulp_exponent(x: nat, p: nat) -> nat
    decreases x,
{
    if x < pow2(p) || x == 0 {
        0
    } else {
        1 + ulp_exponent(x / 2, p)
    }
}

/// Spacing of the values that a register with `p` significant bits holds near `x`.
pub open spec fn ulp(x: nat, p: nat) -> nat {
    pow2(ulp_exponent(x, p))
}

pub open spec fn abs(x: int) -> int {
    if x < 0 {
        -x
    } else {
        x
    }
}

/// `h` is `x` rounded to `p` significant bits: to the nearest multiple of the
/// spacing, ties to the even multiple.
pub open spec fn is_rounded(x: nat, h: int, p: nat) -> bool {
    let u = ulp(x, p) as int;
    &&& h % u == 0
    &&& 2 * abs(x - h) <= u
    &&& 2 * abs(x - h) == u ==> (h / u) % 2 == 0
}

/// The spacing near `x` is at most `2x / 2^p`, or `x` is held exactly.
pub proof fn lemma_ulp_bound(x: nat, p: nat)
    ensures
        ulp(x, p) == 1 || ulp(x, p) * pow2(p) <= 2 * x,
    decreases x,
{
    lemma_pow2_pos(p);
    lemma2_to64();
    if x < pow2(p) || x == 0 {
        assert(ulp(x, p) == 1);
    } else {
        let y = x / 2;
        lemma_ulp_bound(y, p);
        assert(ulp(x, p) == 2 * ulp(y, p)) by {
            lemma_pow2_unfold(1 + ulp_exponent(y, p));
        }
        if ulp(y, p) == 1 {
            assert(ulp(x, p) * pow2(p) <= 2 * x) by (nonlinear_arith)
                requires
                    ulp(x, p) == 2,
                    x >= pow2(p),
            ;
        } else {
            assert(ulp(x, p) * pow2(p) <= 2 * x) by (nonlinear_arith)
                requires
                    ulp(x, p) == 2 * ulp(y, p),
                    ulp(y, p) * pow2(p) <= 2 * y,
                    2 * y <= x,
            ;
        }
    }
}

/// `2^n` for `n < 64`.
fn pow2_u64(n: u32) -> (r: u64)
    requires
        n < 64,
    ensures
        r == pow2(n as nat),
{
    proof {
        vstd::bits::lemma_u64_pow2_no_overflow(n as nat);
        vstd::bits::lemma_u64_shl_is_mul(1, n as u64);
    }
    1u64 << (n as u64)
}

/// Splits the product `a * b` into its value `h` rounded to `precision`
/// significant bits and the exact rounding error `l`, so that `h + l == a * b`:
/// the floating product and the error term a fused multiply-add recovers.
pub fn two_product(a: u64, b: u64, precision: u32) -> (r: (u128, i128))
    requires
        1 <= precision < 64,
        a * b <= u64::MAX,
    ensures
        r.0 + r.1 == a * b,
        is_rounded((a * b) as nat, r.0 as int, precision as nat),
{
    let x: u128 = a as u128 * b as u128;
    let limit = pow2_u64(precision) as u128;
    let mut y: u128 = x;
    let mut unit: u128 = 1;
    let ghost mut s: nat = 0;
    proof {
        lemma2_to64();
        lemma_pow2_strictly_increases(0, precision as nat);
    }
    // double the spacing `unit` until the product, counted in units, fits in
    // `precision` bits
    while y >= limit
        invariant
            limit == pow2(precision as nat),
            limit >= 2,
            x == a * b,
            x <= u64::MAX,
            unit == pow2(s),
            y == x / unit,
            y * unit <= x,
            unit == 1 || unit <= x,
            ulp_exponent(x as nat, precision as nat) == s + ulp_exponent(y as nat, precision as nat),
        decreases y,
    {
        proof {
            lemma_pow2_pos(s);
            lemma_div_denominator(x as int, unit as int, 2);
            lemma_pow2_unfold(s + 1);
            lemma_fundamental_div_mod(x as int, unit as int);
            lemma_fundamental_div_mod(y as int, 2);
            assert(y * unit <= x);
            assert((y / 2) * (unit * 2) <= y * unit) by (nonlinear_arith)
                requires y >= 0, unit >= 0,
            ;
            assert(unit * 2 <= x) by (nonlinear_arith)
                requires y >= 2, y * unit <= x, unit >= 1,
            ;
        }
        y = y / 2;
        unit = unit * 2;
        proof {
            s = s + 1;
        }
    }
    assert((y + 1) * unit == y * unit + unit) by (nonlinear_arith);
    let rem: u128 = x - y * unit;
    let h: u128 = if 2 * rem > unit || (2 * rem == unit && y % 2 == 1) {
        (y + 1) * unit
    } else {
        y * unit
    };
    proof {
        lemma_pow2_pos(s);
        lemma_fundamental_div_mod(x as int, unit as int);
        assert(ulp(x as nat, precision as nat) == unit);
        lemma_mod_multiples_basic(y as int, unit as int);
        lemma_mod_multiples_basic(y + 1, unit as int);
        lemma_div_multiples_vanish(y as int, unit as int);
        lemma_div_multiples_vanish(y + 1, unit as int);
        let u = unit as int;
        assert(0 <= rem < unit);
        if 2 * rem > unit || (2 * rem == unit && y % 2 == 1) {
            assert(h == (y + 1) * u);
            assert((h as int) % u == 0);
            assert((h as int) / u == y + 1);
            assert(abs(x - h) == u - rem);
        } else {
            assert(h == y * u);
            assert((h as int) % u == 0);
            assert((h as int) / u == y);
            assert(abs(x - h) == rem);
        }
    }
    (h, x as i128 - h as i128)
}

/// Reduced addition of two limbs below `m`: one subtraction of `m` at most.
pub fn add_mod(a: u64, b: u64, m: u64) -> (r: u64)
    requires
        a < m,
        b < m,
        m <= 0x1_0000_0000,
    ensures
        r == (a + b) % (m as int),
{
    let s = a + b;
    proof {
        if s >= m {
            lemma_fundamental_div_mod_converse(s as int, m as int, 1, s - m);
        } else {
            lemma_fundamental_div_mod_converse(s as int, m as int, 0, s as int);
        }
    }
    if s >= m {
        s - m
    } else {
        s
    }
}

/// Reduced multiplication of two limbs below `m` on a register with `precision`
/// significant bits: the product is split into its rounded value `h` and the
/// rounding error `l`, `h` is reduced by its quotient by `m`, the error is added
/// back, and one correction up or down brings the sum into `[0, m)`.
pub fn mul_mod(a: u64, b: u64, m: u64, precision: u32) -> (r: u64)
    requires
        1 <= precision < 64,
        m <= pow2(precision as nat),
        m <= 0x1_0000_0000,
        a < m,
        b < m,
    ensures
        r == (a * b) % (m as int),
{
    assert(a * b < m * m) by (nonlinear_arith)
        requires a < m, b < m, a >= 0, b >= 0;
    assert(m * m <= 0x1_0000_0000 * 0x1_0000_0000) by (nonlinear_arith)
        requires m <= 0x1_0000_0000, m >= 0;
    let (h, l) = two_product(a, b, precision);
    let ghost x: nat = (a * b) as nat;
    proof {
        let u = ulp(x, precision as nat);
        lemma_ulp_bound(x, precision as nat);
        if u != 1 {
            assert(u < 2 * m) by (nonlinear_arith)
                requires
                    u * pow2(precision as nat) <= 2 * x,
                    x < m * m,
                    m <= pow2(precision as nat),
                    m > 0,
            ;
        }
        assert(-(m as int) < l < m);
    }
    let mm = m as u128;
    // `h` is non-negative, so its truncated and its floored quotient agree
    let q: u128 = h / mm;
    proof {
        lemma_fundamental_div_mod(h as int, mm as int);
        assert(0 <= h % mm);
        assert(q * mm <= h);
    }
    let d: u128 = h - q * mm;
    let e: i128 = d as i128 + l;
    proof {
        assert(e == x - q * m);
        assert((q + 1) * m == q * m + m) by (nonlinear_arith);
        assert((q - 1) * m == q * m - m) by (nonlinear_arith);
        if e >= m {
            lemma_fundamental_div_mod_converse(x as int, m as int, q + 1, e - m);
        } else if e < 0 {
            lemma_fundamental_div_mod_converse(x as int, m as int, q - 1, e + m);
        } else {
            lemma_fundamental_div_mod_converse(x as int, m as int, q as int, e as int);
        }
    }
    if e >= m as i128 {
        (e - m as i128) as u64
    } else if e < 0 {
        (e + m as i128) as u64
    } else {
        e as u64
    }
}

} // verus!
