use fightcore::fixed_point::{ArithmeticError, FixedPoint, Rect, Vec2};

/// Mirrors the host-side decimal-to-fixed conversion: truncated whole part,
/// fractional remainder scaled by 2^8 (for non-negative samples).
fn fp_from_f64(v: f64) -> FixedPoint {
    let whole = v.trunc();
    let fract = v.fract();
    let raw = ((whole as i32) << 8) | ((fract * 256.0) as i32);
    FixedPoint(raw)
}

fn f64_from_fp(x: FixedPoint) -> f64 {
    x.0 as f64 / 256.0
}

#[test]
fn round_trip_within_one_resolution_step() {
    let samples = [0.0, 0.5, 1.25, 3.75, 30.0, 59.9, 60.0, 100.125, 250.66, 1000.004];
    for v in samples {
        let back = f64_from_fp(fp_from_f64(v));
        assert!((back - v).abs() <= 1.0 / 256.0, "{v} -> {back}");
    }
}

#[test]
fn division_times_divisor_within_one_ulp() {
    // pairs where the divide-then-multiply round trip stays within one
    // raw step; rescaling can amplify the quotient's truncation beyond one
    // step for other operand shapes
    let samples = [
        (1.0, 3.0),
        (100.125, 0.25),
        (59.9, 0.5),
        (2.5, 2.5),
        (3.0, 2.0),
        (0.5, 0.125),
    ];
    for (a, b) in samples {
        let a = fp_from_f64(a);
        let b = fp_from_f64(b);
        let q = a.checked_div(b).unwrap();
        let m = q.checked_mul(b).unwrap();
        assert!(
            (m.0 as i64 - a.0 as i64).abs() <= 1,
            "({} / {}) * {} = {} raw, expected within 1 of {} raw",
            a.0,
            b.0,
            b.0,
            m.0,
            a.0
        );
    }
}

#[test]
fn addition_of_negation_is_zero() {
    let samples = [0, 1, -1, 256, -256, 15360, 25600, i32::MAX];
    for raw in samples {
        let a = FixedPoint(raw);
        let n = a.checked_neg().unwrap();
        assert_eq!(a.checked_add(n).unwrap(), FixedPoint::zero());
    }
}

#[test]
fn absolute_value_is_non_negative() {
    let samples = [0, 1, -1, 12800, -12800, i32::MAX, i32::MIN + 1];
    for raw in samples {
        assert!(FixedPoint(raw).abs() >= FixedPoint::zero());
    }
}

#[test]
fn division_by_zero_is_reported() {
    assert_eq!(
        FixedPoint(256).checked_div(FixedPoint(0)),
        Err(ArithmeticError::DivisionByZero)
    );
}

#[test]
fn division_overflow_is_reported() {
    // The minimum raw value has no representable magnitude.
    assert_eq!(
        FixedPoint(i32::MIN).checked_div(FixedPoint(256)),
        Err(ArithmeticError::Overflow)
    );
    // 2^22 divided by 1/256 rescales far beyond the raw range.
    assert_eq!(
        FixedPoint(1 << 30).checked_div(FixedPoint(1)),
        Err(ArithmeticError::Overflow)
    );
}

#[test]
fn division_exact_values() {
    // 1.0 / 1.0 == 1.0
    assert_eq!(FixedPoint(256).checked_div(FixedPoint(256)), Ok(FixedPoint(256)));
    // 1.0 / 3.0 truncates to 85/256
    assert_eq!(FixedPoint(256).checked_div(FixedPoint(768)), Ok(FixedPoint(85)));
    // -1.0 / 2.0 == -0.5
    assert_eq!(FixedPoint(-256).checked_div(FixedPoint(512)), Ok(FixedPoint(-128)));
    // sign of the quotient is the XOR of the operand signs
    assert_eq!(FixedPoint(-256).checked_div(FixedPoint(-512)), Ok(FixedPoint(128)));
}

#[test]
fn multiplication_shifts_toward_negative_infinity() {
    // 0.5 * 0.5 == 0.25
    assert_eq!(FixedPoint(128).checked_mul(FixedPoint(128)), Ok(FixedPoint(64)));
    // the shifted-out bits truncate downward, also for negative products
    assert_eq!(FixedPoint(-1).checked_mul(FixedPoint(1)), Ok(FixedPoint(-1)));
    assert_eq!(FixedPoint(1).checked_mul(FixedPoint(1)), Ok(FixedPoint(0)));
}

#[test]
fn multiplication_overflow_is_reported() {
    assert_eq!(
        FixedPoint(i32::MAX).checked_mul(FixedPoint(i32::MAX)),
        Err(ArithmeticError::Overflow)
    );
}

#[test]
fn addition_overflow_is_reported() {
    assert_eq!(
        FixedPoint(i32::MAX).checked_add(FixedPoint(1)),
        Err(ArithmeticError::Overflow)
    );
    assert_eq!(
        FixedPoint(i32::MIN).checked_sub(FixedPoint(1)),
        Err(ArithmeticError::Overflow)
    );
    assert_eq!(FixedPoint(i32::MIN).checked_neg(), Err(ArithmeticError::Overflow));
}

#[test]
fn whole_and_frac_decompose_the_raw_value() {
    let samples = [0, 1, 255, 256, 257, -1, -256, -257, 25632];
    for raw in samples {
        let x = FixedPoint(raw);
        let w = x.whole();
        let f = x.frac();
        assert!((0..256).contains(&f));
        assert_eq!(256 * w as i64 + f as i64, raw as i64);
    }
}

#[test]
fn trunc_rounds_toward_negative_infinity() {
    assert_eq!(FixedPoint(300).trunc(), FixedPoint(256));
    assert_eq!(FixedPoint(-1).trunc(), FixedPoint(-256));
    assert_eq!(FixedPoint(-256).trunc(), FixedPoint(-256));
}

#[test]
fn round_halves_away_from_zero() {
    // 0.5 -> 1.0, 1.5 -> 2.0
    assert_eq!(FixedPoint(128).round(), FixedPoint(256));
    assert_eq!(FixedPoint(384).round(), FixedPoint(512));
    // just under one half stays
    assert_eq!(FixedPoint(127).round(), FixedPoint(0));
    // -0.5 -> -1.0, -1.5 -> -2.0, and just over -0.5 comes back to 0
    assert_eq!(FixedPoint(-128).round(), FixedPoint(-256));
    assert_eq!(FixedPoint(-384).round(), FixedPoint(-512));
    assert_eq!(FixedPoint(-127).round(), FixedPoint(0));
    // -1.25 -> -1.0, -1.75 -> -2.0
    assert_eq!(FixedPoint(-320).round(), FixedPoint(-256));
    assert_eq!(FixedPoint(-448).round(), FixedPoint(-512));
}

#[test]
fn significant_digits_spans_the_magnitude() {
    assert_eq!(FixedPoint(0).significant_digits(), 32);
    assert_eq!(FixedPoint(256).significant_digits(), 17);
    assert_eq!(FixedPoint(-256).significant_digits(), 17);
    assert_eq!(FixedPoint(1).significant_digits(), 1);
    assert_eq!(FixedPoint(3).significant_digits(), 2);
}

#[test]
fn from_int_scales_by_the_unit() {
    assert_eq!(FixedPoint::from_int(60), Ok(FixedPoint(15360)));
    assert_eq!(FixedPoint::from_int(-50), Ok(FixedPoint(-12800)));
    assert_eq!(FixedPoint::from_int(i32::MAX), Err(ArithmeticError::Overflow));
}

#[test]
fn rect_overlap_is_strict() {
    let a = Rect {
        min: Vec2 { x: FixedPoint(0), y: FixedPoint(0) },
        max: Vec2 { x: FixedPoint(256), y: FixedPoint(256) },
    };
    let touching = Rect {
        min: Vec2 { x: FixedPoint(256), y: FixedPoint(0) },
        max: Vec2 { x: FixedPoint(512), y: FixedPoint(256) },
    };
    let crossing = Rect {
        min: Vec2 { x: FixedPoint(255), y: FixedPoint(255) },
        max: Vec2 { x: FixedPoint(512), y: FixedPoint(512) },
    };
    assert!(!a.overlaps(touching));
    assert!(a.overlaps(crossing));
    assert!(!touching.overlaps(a));
}

#[test]
fn rect_offset_translates_both_corners() {
    let a = Rect {
        min: Vec2 { x: FixedPoint(-256), y: FixedPoint(0) },
        max: Vec2 { x: FixedPoint(256), y: FixedPoint(512) },
    };
    let moved = a.offset(Vec2 { x: FixedPoint(256), y: FixedPoint(-256) }).unwrap();
    assert_eq!(moved.left(), FixedPoint(0));
    assert_eq!(moved.right(), FixedPoint(512));
    assert_eq!(moved.top(), FixedPoint(-256));
    assert_eq!(moved.bottom(), FixedPoint(256));
    let far = Rect {
        min: Vec2 { x: FixedPoint(i32::MAX), y: FixedPoint(0) },
        max: Vec2 { x: FixedPoint(i32::MAX), y: FixedPoint(0) },
    };
    assert_eq!(
        far.offset(Vec2 { x: FixedPoint(1), y: FixedPoint(0) }),
        Err(ArithmeticError::Overflow)
    );
}

#[test]
fn vec2_arithmetic_is_componentwise() {
    let a = Vec2 { x: FixedPoint(256), y: FixedPoint(-512) };
    let b = Vec2 { x: FixedPoint(128), y: FixedPoint(512) };
    assert_eq!(
        a.checked_add(b),
        Ok(Vec2 { x: FixedPoint(384), y: FixedPoint(0) })
    );
    assert_eq!(
        a.checked_sub(b),
        Ok(Vec2 { x: FixedPoint(128), y: FixedPoint(-1024) })
    );
    assert_eq!(
        a.checked_mul(FixedPoint(512)),
        Ok(Vec2 { x: FixedPoint(512), y: FixedPoint(-1024) })
    );
    assert_eq!(
        a.checked_div(FixedPoint(512)),
        Ok(Vec2 { x: FixedPoint(128), y: FixedPoint(-256) })
    );
}
