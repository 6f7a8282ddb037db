use ark_experimentation::limb::add_mod;
use ark_experimentation::limb::mul_mod;
use ark_experimentation::limb::two_product;
use ark_experimentation::limb::DOUBLE_PRECISION;
use ark_experimentation::limb::HALF_PRECISION;
use ark_experimentation::limb::SINGLE_PRECISION;
use ark_experimentation::mul_mod_fma;
use ark_experimentation::reduce_numeric_half;
use ark_experimentation::utils::xgcd;

#[test]
fn test_float() {
    let v = 0.15625f32.to_bits();
    println!("v: {:032b}", v);
    assert_eq!(v, 0x3E20_0000);
}

#[test]
fn two_product_matches_float_rounding() {
    // 255 * 255 = 65025 needs 16 bits; half precision keeps 11
    assert_eq!(two_product(255, 255, HALF_PRECISION), (65024, 1));
    // a tie rounds to the even multiple
    assert_eq!(two_product(2049, 1, HALF_PRECISION), (2048, 1));
    assert_eq!(two_product(2051, 1, HALF_PRECISION), (2052, -1));
    // exact products are kept
    assert_eq!(two_product(1000, 2, HALF_PRECISION), (2000, 0));
    for (a, b) in [(0xFFFFu64, 0xFFFFu64), (12345, 54321), (0xFFFF_FFFF, 0xFFFF_FFFF)] {
        for p in [HALF_PRECISION, SINGLE_PRECISION, DOUBLE_PRECISION] {
            let (h, l) = two_product(a, b, p);
            assert_eq!(h as i128 + l, (a * b) as i128);
        }
        let (h, l) = two_product(a, b, SINGLE_PRECISION);
        assert_eq!(h, (((a * b) as f32) as f64) as u128);
        assert_eq!(l, (a * b) as i128 - h as i128);
        let (h, _) = two_product(a, b, DOUBLE_PRECISION);
        assert_eq!(h, ((a * b) as f64) as u128);
    }
}

#[test]
fn limb_add_and_mul() {
    assert_eq!(add_mod(255, 2, 256), 1);
    assert_eq!(add_mod(100, 2, 256), 102);
    assert_eq!(mul_mod(255, 255, 256, HALF_PRECISION), 1);
    assert_eq!(mul_mod(0xFFFF, 0xFFFF, 0x1_0000, SINGLE_PRECISION), 1);
    assert_eq!(mul_mod(0xFFFF_FFFF, 0xFFFF_FFFF, 0x1_0000_0000, DOUBLE_PRECISION), 1);
    for m in [3u64, 256, 65537, 2097143] {
        for a in [0, 1, m / 2, m - 2, m - 1] {
            for b in [0, 1, m / 3, m - 1] {
                assert_eq!(add_mod(a, b, m), (a + b) % m);
                assert_eq!(mul_mod(a, b, m, SINGLE_PRECISION), a * b % m);
            }
        }
    }
}

#[test]
fn reduction_modulo_65537() {
    assert_eq!(reduce_numeric_half(0), 0);
    assert_eq!(reduce_numeric_half(65536), 65536);
    assert_eq!(reduce_numeric_half(65537), 0);
    assert_eq!(reduce_numeric_half(65537 * 3 + 5), 5);
    assert_eq!(reduce_numeric_half(0xFF_FFFF), 0xFF_FFFF % 65537);
    assert_eq!(mul_mod_fma(65536, 65536), 1);
    assert_eq!(mul_mod_fma(12345, 6789), (12345 * 6789) % 65537);
    assert_eq!(mul_mod_fma(0, 65536), 0);
}

#[test]
fn extended_gcd() {
    assert_eq!(xgcd(0, 5), (5, 0, 1));
    let (g, x, y) = xgcd(240, 46);
    assert_eq!(g, 2);
    assert_eq!(240u64.wrapping_mul(x).wrapping_add(46u64.wrapping_mul(y)), 2);
    let (g, x, y) = xgcd(17, 2097143);
    assert_eq!(g, 1);
    assert_eq!(17u64.wrapping_mul(x).wrapping_add(2097143u64.wrapping_mul(y)), 1);
    assert_eq!(xgcd(12, 18).0, 6);
}
