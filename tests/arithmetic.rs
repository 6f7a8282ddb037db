use ark_experimentation::arithmetic::double_precision::U32 as DoubleU32;
use ark_experimentation::arithmetic::half_precision::U32 as HalfU32;
use ark_experimentation::arithmetic::half_precision::U8;
use ark_experimentation::arithmetic::single_precision::U16;
use ark_experimentation::arithmetic::single_precision::U31;
use ark_experimentation::arithmetic::single_precision::U32 as SingleU32;
use rand::rngs::StdRng;
use rand::Rng;
use rand::SeedableRng;

const MASK_31_BITS: u32 = 0b1111111111111111111111111111111;

const U16_EDGE_CASES: [u16; 10] = [0, 1, 2, 3, 5, 7, 8, 0xFF, 0xFF00, 0xFFFF];

const U32_EDGE_CASES: [u32; 10] = [0, 1, 2, 3, 5, 0xFF, 0xFF00, 0xFF0000, 0xFF000000, u32::MAX];

const U31_EDGE_CASES: [u32; 10] = [
    0,
    1,
    2,
    3,
    5,
    0xFF,
    0xFF00,
    0xFF0000,
    0xFF000000 >> 1,
    u32::MAX >> 1,
];

#[test]
fn simulated_u8_multiplication() {
    for a in 0..=u8::MAX {
        for b in 0..=u8::MAX {
            let expected = U8::new(a.wrapping_mul(b));
            let actual = U8::new(a).mul(U8::new(b));
            assert_eq!(expected, actual, "mismatch: `{a} * {b}`");
        }
    }
}

#[test]
fn simulated_u8_addition() {
    for a in 0..=u8::MAX {
        for b in 0..=u8::MAX {
            let expected = U8::new(a.wrapping_add(b));
            let actual = U8::new(a).add(U8::new(b));
            assert_eq!(expected, actual, "mismatch: `{a} + {b}`");
        }
    }
}

#[test]
fn half_precision_simulated_u32_multiplication() {
    for a in U32_EDGE_CASES {
        for b in U32_EDGE_CASES {
            let expected = HalfU32::new(a.wrapping_mul(b));
            let actual = HalfU32::new(a).mul(HalfU32::new(b));
            assert_eq!(expected, actual, "mismatch: `{a} * {b}`");
        }
    }
}

#[test]
fn arithmetic_simulated_u32_addition() {
    for a in U32_EDGE_CASES {
        for b in U32_EDGE_CASES {
            let expected = HalfU32::new(a.wrapping_add(b));
            let actual = HalfU32::new(a).add(HalfU32::new(b));
            assert_eq!(expected, actual, "mismatch: `{a} + {b}`");
        }
    }
}

#[test]
fn simulated_u16_multiplication() {
    for a in U16_EDGE_CASES {
        for b in U16_EDGE_CASES {
            let expected = U16::new(a.overflowing_mul(b).0);
            let actual = U16::new(a).mul(U16::new(b));
            assert_eq!(expected, actual, "mismatch: `{a} * {b}`");
        }
    }
}

#[test]
fn arithmetic_simulated_u32_multiplication() {
    let mut rng = StdRng::from_seed([1; 32]);
    let edge_cases = (0..1024).map(|_| rng.gen()).collect::<Vec<u32>>();
    for &a in &edge_cases {
        for &b in &edge_cases {
            let expected = SingleU32::new(a.overflowing_mul(b).0);
            let actual = SingleU32::new(a).mul(SingleU32::new(b));
            assert_eq!(expected, actual, "mismatch: `{a} * {b}`");
        }
    }
}

#[test]
fn simulated_u31_multiplication() {
    let mut rng = StdRng::from_seed([1; 32]);
    let edge_cases = (0..2048)
        .map(|_| rng.gen::<u32>() & MASK_31_BITS)
        .collect::<Vec<u32>>();
    for &a in &edge_cases {
        for &b in &edge_cases {
            let expected = U31::new(a.overflowing_mul(b).0 & MASK_31_BITS);
            let actual = U31::new(a).mul(U31::new(b));
            assert_eq!(expected, actual, "mismatch: `{a} * {b}`");
        }
    }
}

#[test]
fn simulated_u16_addition() {
    for a in U16_EDGE_CASES {
        for b in U16_EDGE_CASES {
            let expected = U16::new(a.overflowing_add(b).0);
            let actual = U16::new(a).add(U16::new(b));
            assert_eq!(expected, actual, "mismatch: `{a} + {b}`");
        }
    }
}

#[test]
fn single_precision_simulated_u32_addition() {
    for a in U32_EDGE_CASES {
        for b in U32_EDGE_CASES {
            let expected = SingleU32::new(a.overflowing_add(b).0);
            let actual = SingleU32::new(a).add(SingleU32::new(b));
            assert_eq!(expected, actual, "mismatch: `{a} + {b}`");
        }
    }
}

#[test]
fn simulated_u31_addition() {
    for a in U31_EDGE_CASES {
        for b in U31_EDGE_CASES {
            let expected = U31::new(a.overflowing_add(b).0 & MASK_31_BITS);
            let actual = U31::new(a).add(U31::new(b));
            assert_eq!(expected, actual, "mismatch: `{a} + {b}`");
        }
    }
}

#[test]
fn double_precision_u32_edge_cases() {
    for a in U32_EDGE_CASES {
        for b in U32_EDGE_CASES {
            assert_eq!(DoubleU32::new(a.wrapping_add(b)), DoubleU32::new(a).add(DoubleU32::new(b)));
            assert_eq!(DoubleU32::new(a.wrapping_mul(b)), DoubleU32::new(a).mul(DoubleU32::new(b)));
        }
    }
}

#[test]
fn half_precision_u32_multiplication_random() {
    let mut rng = StdRng::from_seed([2; 32]);
    let edge_cases = (0..512).map(|_| rng.gen()).collect::<Vec<u32>>();
    for &a in &edge_cases {
        for &b in &edge_cases {
            let actual = HalfU32::new(a).mul(HalfU32::new(b));
            assert_eq!(actual.to_u32(), a.wrapping_mul(b), "mismatch: `{a} * {b}`");
        }
    }
}

#[test]
fn limb_scenarios_modulo_256() {
    assert_eq!(U8::new(255).add(U8::new(2)).to_u8(), 1);
    assert_eq!(U8::new(255).mul(U8::new(255)).to_u8(), 1);
    assert_eq!(u8::from(U8::new(17).mul(U8::new(16))), 16);
}

#[test]
fn wraparound_scenarios() {
    let (a, b) = (0xFFFF_FFFFu32, 2u32);
    assert_eq!(HalfU32::new(a).add(HalfU32::new(b)).to_u32(), 1);
    assert_eq!(SingleU32::new(a).add(SingleU32::new(b)).to_u32(), 1);
    assert_eq!(DoubleU32::new(a).add(DoubleU32::new(b)).to_u32(), 1);

    let (a, b) = (0xFFFF_0000u32, 0x1_0000u32);
    let expected = ((a as u64 * b as u64) % (1u64 << 32)) as u32;
    assert_eq!(expected, 0);
    assert_eq!(HalfU32::new(a).mul(HalfU32::new(b)).to_u32(), expected);
    assert_eq!(SingleU32::new(a).mul(SingleU32::new(b)).to_u32(), expected);
    assert_eq!(DoubleU32::new(a).mul(DoubleU32::new(b)).to_u32(), expected);

    let (a, b) = (0x1234_5678u32, 0x9ABC_DEF1u32);
    let expected = ((a as u64 * b as u64) % (1u64 << 32)) as u32;
    assert_eq!(HalfU32::new(a).mul(HalfU32::new(b)).to_u32(), expected);
    assert_eq!(SingleU32::new(a).mul(SingleU32::new(b)).to_u32(), expected);
    assert_eq!(DoubleU32::new(a).mul(DoubleU32::new(b)).to_u32(), expected);
    assert_eq!(U31::new(a).mul(U31::new(b)).to_u32(), a.wrapping_mul(b) & MASK_31_BITS);
}

#[test]
fn round_trips() {
    for v in U32_EDGE_CASES {
        assert_eq!(HalfU32::new(v).to_u32(), v);
        assert_eq!(SingleU32::new(v).to_u32(), v);
        assert_eq!(DoubleU32::new(v).to_u32(), v);
    }
    for v in U31_EDGE_CASES {
        assert_eq!(U31::new(v).to_u32(), v);
    }
    for v in U16_EDGE_CASES {
        assert_eq!(U16::new(v).to_u16(), v);
    }
    for v in 0..=u8::MAX {
        assert_eq!(U8::new(v).to_u8(), v);
    }
}

#[test]
fn u31_keeps_low_31_bits() {
    assert_eq!(U31::new(u32::MAX).to_u32(), MASK_31_BITS);
    assert_eq!(U31::new(0x8000_0000).to_u32(), 0);
    assert_eq!(U31::new(MASK_31_BITS).add(U31::new(1)).to_u32(), 0);
}
