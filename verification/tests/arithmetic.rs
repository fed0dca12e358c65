use simmer::Float;

fn fl(x: f64) -> Float {
    Float::from_bits(x.to_bits())
}

fn num(x: Float) -> f64 {
    f64::from_bits(x.to_bits())
}

/// The same number, or a NaN on both sides.
fn same(soft: Float, hard: f64) -> bool {
    if hard.is_nan() {
        soft.is_nan()
    } else {
        soft.to_bits() == hard.to_bits()
    }
}

fn check_pair(a: f64, b: f64) {
    assert!(same(fl(a) + fl(b), a + b), "{:e} + {:e}", a, b);
    assert!(same(fl(a) - fl(b), a - b), "{:e} - {:e}", a, b);
    assert!(same(fl(a) * fl(b), a * b), "{:e} * {:e}", a, b);
    assert!(same(fl(a) / fl(b), a / b), "{:e} / {:e}", a, b);
}

/// A step of a linear congruential generator.
fn next(state: &mut u64) -> u64 {
    *state = state.wrapping_mul(6364136223846793005).wrapping_add(1442695040888963407);
    let x = *state;
    (x ^ (x >> 29)).wrapping_mul(0xbf58476d1ce4e5b9) ^ (x >> 32)
}

#[test]
fn sums_are_exact_where_they_can_be() {
    assert_eq!(num(fl(1.0) + fl(1.0)), 2.0);
    assert_eq!(num(fl(0.5) + fl(0.25)), 0.75);
    assert_eq!(num(fl(-3.0) + fl(3.0)), 0.0);
    assert_eq!((fl(-3.0) + fl(3.0)).to_bits(), 0);
    assert_eq!(num(fl(1.0e308) + fl(1.0e308)), f64::INFINITY);
    assert_eq!(num(fl(0.1) + fl(0.2)), 0.30000000000000004);
}

#[test]
fn differences_are_exact_where_they_can_be() {
    assert_eq!(num(fl(5.0) - fl(3.0)), 2.0);
    assert_eq!(num(fl(3.0) - fl(5.0)), -2.0);
    assert_eq!(num(fl(212.0) - fl(32.0)), 180.0);
    assert_eq!(num(fl(273.15) - fl(273.15)), 0.0);
    assert_eq!(num(fl(0.3) - fl(0.1)), 0.19999999999999998);
}

#[test]
fn products_are_exact_where_they_can_be() {
    assert_eq!(num(fl(2.0) * fl(2.0)), 4.0);
    assert_eq!(num(fl(-1.5) * fl(4.0)), -6.0);
    assert_eq!(num(fl(100.0) * fl(1.8)), 180.0);
    assert_eq!(num(fl(1.0e200) * fl(1.0e200)), f64::INFINITY);
    assert_eq!(num(fl(0.1) * fl(3.0)), 0.30000000000000004);
}

#[test]
fn quotients_are_exact_where_they_can_be() {
    assert_eq!(num(fl(10.0) / fl(5.0)), 2.0);
    assert_eq!(num(fl(180.0) / fl(1.8)), 100.0);
    assert_eq!(num(fl(1.0) / fl(3.0)), 0.3333333333333333);
    assert_eq!(num(fl(1.0) / fl(0.0)), f64::INFINITY);
    assert_eq!(num(fl(-1.0) / fl(0.0)), f64::NEG_INFINITY);
    assert!((fl(0.0) / fl(0.0)).is_nan());
}

#[test]
fn the_four_operations_on_the_special_numbers() {
    let specials: [f64; 22] = [
        0.0,
        -0.0,
        1.0,
        -1.0,
        1.8,
        32.0,
        273.15,
        -459.67,
        f64::MIN_POSITIVE,
        -f64::MIN_POSITIVE,
        4.9e-324,
        -4.9e-324,
        2.2250738585072009e-308,
        f64::MAX,
        f64::MIN,
        f64::EPSILON,
        1.0 + f64::EPSILON,
        0.9999999999999999,
        f64::INFINITY,
        f64::NEG_INFINITY,
        f64::NAN,
        1.0e-320,
    ];
    for a in specials {
        for b in specials {
            check_pair(a, b);
        }
    }
}

#[test]
fn the_four_operations_on_any_patterns() {
    let mut state: u64 = 0x2545f4914f6cdd1d;
    for _ in 0..200000 {
        let a = f64::from_bits(next(&mut state));
        let b = f64::from_bits(next(&mut state));
        check_pair(a, b);
    }
}

#[test]
fn the_four_operations_on_numbers_of_like_size() {
    // exponents close to each other, so that sums cancel and carry
    let mut state: u64 = 0x9e3779b97f4a7c15;
    for _ in 0..200000 {
        let a_bits = next(&mut state);
        let b_fraction = next(&mut state) & 0x000f_ffff_ffff_ffff;
        let shift = next(&mut state) % 5;
        let a_exponent = (a_bits >> 52) & 0x7ff;
        let b_exponent = (a_exponent + shift).min(0x7fe).saturating_sub(2);
        let b_sign = next(&mut state) & 0x8000_0000_0000_0000;
        let a = f64::from_bits(a_bits);
        let b = f64::from_bits(b_sign | (b_exponent << 52) | b_fraction);
        check_pair(a, b);
    }
}

#[test]
fn the_four_operations_on_the_smallest_numbers() {
    // subnormal numbers and their neighbours
    let mut state: u64 = 0xd1b54a32d192ed03;
    for _ in 0..100000 {
        let a = f64::from_bits(next(&mut state) & 0x803f_ffff_ffff_ffff);
        let b = f64::from_bits(next(&mut state) & 0x803f_ffff_ffff_ffff);
        check_pair(a, b);
        let c = f64::from_bits(next(&mut state) & 0xbfff_ffff_ffff_ffff);
        check_pair(a, c);
        check_pair(c, b);
    }
}

#[test]
fn the_four_operations_on_temperatures() {
    // the numbers that conversions meet: a few digits before and after the point
    let mut state: u64 = 0x853c49e6748fea9b;
    for _ in 0..100000 {
        let whole = (next(&mut state) % 2_000_000) as f64 - 1_000_000.0;
        let a = whole / 100.0;
        check_pair(a, 32.0);
        check_pair(a, 1.8);
        check_pair(a, 273.15);
    }
}
