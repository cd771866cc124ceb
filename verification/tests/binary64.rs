use polygo_engine::binary64::Binary64;

fn b(x: f64) -> Binary64 {
    Binary64 { bits: x.to_bits() }
}

fn v(x: Binary64) -> f64 {
    f64::from_bits(x.bits)
}

struct Numbers {
    state: u64,
}

impl Numbers {
    fn next_bits(&mut self) -> u64 {
        self.state ^= self.state << 13;
        self.state ^= self.state >> 7;
        self.state ^= self.state << 17;
        self.state
    }

    /// Numbers of every kind: arbitrary bits, prices, sizes, and neighbours of both.
    fn next(&mut self) -> f64 {
        let bits = self.next_bits();
        let pick = self.next_bits() % 8;
        match pick {
            0 => f64::from_bits(bits),
            1 => (bits % 100_001) as f64 / 100_000.0,
            2 => (bits % 1_000_000) as f64 / 100.0,
            3 => -((bits % 1_000_000) as f64) / 1000.0,
            4 => (bits >> 11) as f64,
            5 => f64::from_bits(bits & 0x800f_ffff_ffff_ffff),
            6 => f64::from_bits((bits & 0x800f_ffff_ffff_ffff) | ((1000 + bits % 47) << 52)),
            _ => f64::from_bits((bits & 0x800f_ffff_ffff_ffff) | ((1990 + bits % 57) << 52)),
        }
    }
}

fn agree(ours: Binary64, theirs: f64) -> bool {
    if theirs.is_nan() {
        ours.is_nan()
    } else {
        ours.bits == theirs.to_bits()
    }
}

#[test]
fn arithmetic_agrees_with_the_machine() {
    let mut numbers = Numbers { state: 0x9e37_79b9_7f4a_7c15 };
    for _ in 0..200_000 {
        let (x, y) = (numbers.next(), numbers.next());
        assert!(agree(b(x).add(b(y)), x + y), "{x:e} + {y:e}");
        assert!(agree(b(x).sub(b(y)), x - y), "{x:e} - {y:e}");
        assert!(agree(b(x).mul(b(y)), x * y), "{x:e} * {y:e}");
        assert!(agree(b(x).div(b(y)), x / y), "{x:e} / {y:e}");
        assert!(agree(b(x).neg(), -x) || x.is_nan());
        assert!(agree(b(x).abs(), x.abs()));
    }
}

#[test]
fn comparison_agrees_with_the_machine() {
    let mut numbers = Numbers { state: 0x1234_5678_9abc_def1 };
    for i in 0..200_000 {
        let x = numbers.next();
        let y = if i % 5 == 0 { x } else { numbers.next() };
        assert_eq!(b(x).lt(b(y)), x < y);
        assert_eq!(b(x).le(b(y)), x <= y);
        assert_eq!(b(x).equals(b(y)), x == y);
        assert_eq!(b(x).is_nan(), x.is_nan());
        assert_eq!(b(x).is_finite(), x.is_finite());
        assert_eq!(b(x).position() < b(y).position(), x.total_cmp(&y).is_lt());
        if x != 0.0 || y != 0.0 {
            assert!(agree(b(x).min(b(y)), x.min(y)));
            assert!(agree(b(x).max(b(y)), x.max(y)));
        }
    }
}

#[test]
fn whole_numbers_agree_with_the_machine() {
    let mut numbers = Numbers { state: 0x0f1e_2d3c_4b5a_6978 };
    for _ in 0..200_000 {
        let x = numbers.next();
        assert!(agree(b(x).floor(), x.floor()), "floor {x:e}");
        assert!(agree(b(x).round(), x.round()), "round {x:e}");
        assert_eq!(b(x).to_u64(), x as u64, "{x:e}");
        assert_eq!(b(x).to_i64(), x as i64, "{x:e}");
        let n = numbers.next_bits() >> (numbers.next_bits() % 64);
        assert_eq!(v(Binary64::from_u64(n)), n as f64);
    }
}

#[test]
fn edges() {
    for x in [0.0, -0.0, 0.5, -0.5, 1.5, 2.5, 0.49999999999999994, f64::MAX, f64::MIN_POSITIVE, f64::EPSILON, 5e-324, f64::INFINITY] {
        for y in [0.0, -0.0, 1.0, -1.0, 0.1, f64::MAX, 5e-324, f64::INFINITY, f64::NEG_INFINITY] {
            assert!(agree(b(x).add(b(y)), x + y));
            assert!(agree(b(x).sub(b(y)), x - y));
            assert!(agree(b(x).mul(b(y)), x * y));
            assert!(agree(b(x).div(b(y)), x / y));
        }
        assert!(agree(b(x).round(), x.round()));
        assert!(agree(b(x).floor(), x.floor()));
    }
    assert!(b(f64::NAN).add(b(1.0)).is_nan());
    assert!(b(f64::INFINITY).sub(b(f64::INFINITY)).is_nan());
    assert_eq!(b(f64::NAN).to_u64(), 0);
    assert_eq!(b(f64::NAN).to_i64(), 0);
    assert_eq!(v(b(2.0).clamp(b(0.01), b(0.99))), 0.99);
    assert_eq!(v(b(-2.0).clamp(b(0.01), b(0.99))), 0.01);
    assert_eq!(v(Binary64::infinity()), f64::INFINITY);
}

#[test]
fn fractions_are_the_decimal_literals() {
    assert_eq!(v(Binary64::from_ratio(7, 100)), 0.07);
    assert_eq!(v(Binary64::from_ratio(1, 100_000)), 0.00001);
    assert_eq!(v(Binary64::from_ratio(20, 100)), 0.20);
    assert_eq!(v(Binary64::from_ratio(95, 100)), 0.95);
    assert_eq!(v(Binary64::from_ratio(5, 100)), 0.05);
    assert_eq!(v(Binary64::from_ratio(99, 100)), 0.99);
    assert_eq!(v(Binary64::from_ratio(1, 100)), 0.01);
    assert_eq!(v(Binary64::from_ratio(125, 100)), 1.25);
    assert_eq!(v(Binary64::from_ratio(1, 100_000_000)), 0.00000001);
    assert_eq!(v(Binary64::from_ratio(1, 0x10_0000_0000_0000)), f64::EPSILON);
}
