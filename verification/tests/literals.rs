use rhdl_ast::lits::{parse_float_literal, parse_int_literal, LitError, Natural};
use rhdl_ast::token::Span;

fn int_ok(text: &str, expected: u64) {
    let li = parse_int_literal(text).unwrap();
    assert_eq!(li.raw, text);
    assert_eq!(li.span, Span(0, text.len()));
    assert!(li.suffix.is_none());
    assert_eq!(li.val.to_u64(), Some(expected));
}

#[test]
fn int_parser() {
    int_ok("123", 123);
    int_ok("1_2_3", 123);
    int_ok("0b101", 0b101);
    int_ok("0b1_01", 0b101);
    int_ok("0o72", 0o72);
    int_ok("0d1_2_3", 123);
    int_ok("0xB105F00D", 0xB105F00Du32 as u64);
    int_ok("0xB105_F00D", 0xB105F00Du32 as u64);
    int_ok("36#HELLO_THERE", 1767707662651898u64);
    assert!(parse_int_literal("?").is_err());
}

#[test]
fn float_parser() {
    let e64 = format!("{}f64", std::f64::consts::E);
    let lf = parse_float_literal(&e64).unwrap();
    assert_eq!(lf.raw, e64);
    assert_eq!(lf.span, Span(0, e64.len()));
    assert!(lf.suffix.is_none());
    assert_eq!(lf.val.precision, 64);
    assert_eq!(lf.val.mantissa.to_u64(), Some(2718281828459045));
    assert_eq!(lf.val.exp10, -15);

    let pi32 = format!("{}f32", std::f32::consts::PI);
    let lf = parse_float_literal(&pi32).unwrap();
    assert_eq!(lf.raw, pi32);
    assert_eq!(lf.span, Span(0, pi32.len()));
    assert_eq!(lf.val.precision, 32);

    for (text, prec) in [
        ("0f16", 16u32),
        ("0f32", 32),
        ("0f64", 64),
        ("0f128", 128),
        ("0f256", 256),
    ] {
        let lf = parse_float_literal(text).unwrap();
        assert_eq!(lf.raw, text);
        assert_eq!(lf.span, Span(0, text.len()));
        assert!(lf.suffix.is_none());
        assert_eq!(lf.val.precision, prec);
        assert_eq!(lf.val.mantissa.to_u64(), Some(0));
        assert_eq!(lf.val.exp10, 0);
    }
    assert!(parse_float_literal("?").is_err());
}

#[test]
fn int_suffixes() {
    let li = parse_int_literal("123u8").unwrap();
    assert_eq!(li.raw, "123u8");
    assert_eq!(li.val.to_u64(), Some(123));
    let sfx = li.suffix.unwrap();
    assert_eq!(sfx.inner, "u8");
    assert_eq!(sfx.span, Span(3, 5));

    let li = parse_int_literal("0xffi12").unwrap();
    assert_eq!(li.val.to_u64(), Some(255));
    assert_eq!(li.suffix.unwrap().inner, "i12");
}

#[test]
fn int_errors() {
    assert!(matches!(parse_int_literal("99#1"), Err(LitError::BadRadix)));
    assert!(matches!(parse_int_literal("1#1"), Err(LitError::BadRadix)));
    assert!(matches!(parse_int_literal("036#11"), Err(LitError::BadRadix)));
    assert!(matches!(parse_int_literal(""), Err(LitError::BadDigits)));
    assert!(matches!(parse_int_literal("xyz"), Err(LitError::BadDigits)));
    assert!(matches!(parse_int_literal("0b2"), Err(LitError::BadDigits)));
    assert!(matches!(parse_int_literal("_1"), Err(LitError::BadDigits)));
    assert!(matches!(parse_int_literal("123abc"), Err(LitError::BadSuffix)));
    assert!(matches!(parse_int_literal("1u"), Err(LitError::BadSuffix)));
    assert!(matches!(parse_int_literal("1u8x"), Err(LitError::BadSuffix)));
}

#[test]
fn int_radix_forms() {
    int_ok("2#101", 5);
    int_ok("06#10", 6);
    int_ok("16#ff", 255);
    int_ok("16#FF", 255);
    int_ok("36#zz", 35 * 36 + 35);
}

#[test]
fn float_errors() {
    assert!(matches!(parse_float_literal("12"), Err(LitError::BadDigits)));
    assert!(matches!(parse_float_literal("1."), Err(LitError::BadDigits)));
    assert!(matches!(parse_float_literal("1e"), Err(LitError::BadDigits)));
    assert!(matches!(parse_float_literal("1e9999999999999999999"), Err(LitError::BadDigits)));
    assert!(matches!(parse_float_literal("1.2.3"), Err(LitError::BadSuffix)));
    assert!(matches!(parse_float_literal("1f1234567890"), Err(LitError::BadSuffix)));
    assert!(matches!(parse_float_literal("1.5x"), Err(LitError::BadSuffix)));
}

#[test]
fn float_values() {
    let lf = parse_float_literal("12.25e-3f128").unwrap();
    assert_eq!(lf.val.mantissa.to_u64(), Some(1225));
    assert_eq!(lf.val.exp10, -5);
    assert_eq!(lf.val.precision, 128);

    let lf = parse_float_literal("1_0.0_5e+2").unwrap();
    assert_eq!(lf.val.mantissa.to_u64(), Some(1005));
    assert_eq!(lf.val.exp10, 0);
    assert_eq!(lf.val.precision, 64);
}

#[test]
fn natural_bounds() {
    let li = parse_int_literal("0xFFFFFFFFFFFFFFFF").unwrap();
    assert_eq!(li.val.to_u64(), Some(u64::MAX));
    let li = parse_int_literal("0x10000000000000000").unwrap();
    assert_eq!(li.val.to_u64(), None);
    let z = Natural::new();
    assert_eq!(z.to_u64(), Some(0));
    let mut n = Natural::new();
    n.mul_add(10, 7);
    n.mul_add(10, 0);
    assert_eq!(n.to_u64(), Some(70));
    assert_eq!(n.dup().to_u64(), Some(70));
}

#[test]
fn natural_canonical_equality() {
    let a = parse_int_literal("0x10").unwrap().val;
    let b = parse_int_literal("16").unwrap().val;
    let c = parse_int_literal("2#10000").unwrap().val;
    assert_eq!(a, b);
    assert_eq!(b, c);
    let d = parse_int_literal("17").unwrap().val;
    assert!(d != a);
}
