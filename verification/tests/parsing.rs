// Grammar and round-trip tests for every scalar kind, at the width
// boundaries and around them.

use nb_from_env::FromEnv;
use nb_from_env::resolve::ResolutionError;

fn s(x: &str) -> String {
    x.to_string()
}

#[test]
fn roundtrip_signed_extremes() {
    assert_eq!(i8::try_from_env("K", Some(s("-128")), None).unwrap(), -128);
    assert_eq!(i8::try_from_env("K", Some(s("127")), None).unwrap(), 127);
    assert_eq!(i16::try_from_env("K", Some(s("-32768")), None).unwrap(), -32768);
    assert_eq!(i32::try_from_env("K", Some(s("-2147483648")), None).unwrap(), i32::MIN);
    assert_eq!(i32::try_from_env("K", Some(s("2147483647")), None).unwrap(), i32::MAX);
    assert_eq!(
        i64::try_from_env("K", Some(s("-9223372036854775808")), None).unwrap(),
        i64::MIN
    );
    assert_eq!(i64::try_from_env("K", Some(s("9223372036854775807")), None).unwrap(), i64::MAX);
    assert_eq!(
        i128::try_from_env("K", Some(s("-170141183460469231731687303715884105728")), None)
            .unwrap(),
        i128::MIN
    );
    assert_eq!(
        i128::try_from_env("K", Some(s("170141183460469231731687303715884105727")), None)
            .unwrap(),
        i128::MAX
    );
    assert_eq!(isize::try_from_env("K", Some(s("-42")), None).unwrap(), -42);
}

#[test]
fn roundtrip_unsigned_extremes() {
    assert_eq!(u8::try_from_env("K", Some(s("0")), None).unwrap(), 0);
    assert_eq!(u8::try_from_env("K", Some(s("255")), None).unwrap(), 255);
    assert_eq!(u16::try_from_env("K", Some(s("65535")), None).unwrap(), u16::MAX);
    assert_eq!(u32::try_from_env("K", Some(s("4294967295")), None).unwrap(), u32::MAX);
    assert_eq!(
        u64::try_from_env("K", Some(s("18446744073709551615")), None).unwrap(),
        u64::MAX
    );
    assert_eq!(
        u128::try_from_env("K", Some(s("340282366920938463463374607431768211455")), None)
            .unwrap(),
        u128::MAX
    );
    assert_eq!(usize::try_from_env("K", Some(s("4096")), None).unwrap(), 4096);
}

#[test]
fn out_of_range_is_invalid() {
    assert!(i8::try_from_env("K", Some(s("128")), None).is_err());
    assert!(i8::try_from_env("K", Some(s("-129")), None).is_err());
    assert!(u8::try_from_env("K", Some(s("256")), None).is_err());
    assert!(i64::try_from_env("K", Some(s("9223372036854775808")), None).is_err());
    assert!(
        u128::try_from_env("K", Some(s("340282366920938463463374607431768211456")), None)
            .is_err()
    );
}

#[test]
fn signs_only_for_signed_kinds() {
    assert_eq!(i32::try_from_env("K", Some(s("+5")), None).unwrap(), 5);
    assert!(u32::try_from_env("K", Some(s("+5")), None).is_err());
    assert!(u32::try_from_env("K", Some(s("-1")), None).is_err());
    assert!(i32::try_from_env("K", Some(s("-")), None).is_err());
    assert!(i32::try_from_env("K", Some(s("+")), None).is_err());
}

#[test]
fn digit_strings_only() {
    assert!(i32::try_from_env("K", Some(s("")), None).is_err());
    assert!(i32::try_from_env("K", Some(s(" 3")), None).is_err());
    assert!(i32::try_from_env("K", Some(s("3 ")), None).is_err());
    assert!(i32::try_from_env("K", Some(s("1_000")), None).is_err());
    assert!(i32::try_from_env("K", Some(s("0x10")), None).is_err());
    assert!(u64::try_from_env("K", Some(s("12.5")), None).is_err());
}

#[test]
fn leading_zeroes_are_accepted() {
    assert_eq!(i32::try_from_env("K", Some(s("007")), None).unwrap(), 7);
    assert_eq!(u8::try_from_env("K", Some(s("000")), None).unwrap(), 0);
    assert_eq!(i16::try_from_env("K", Some(s("-007")), None).unwrap(), -7);
}

#[test]
fn booleans_any_letter_case() {
    assert!(bool::try_from_env("K", Some(s("true")), None).unwrap());
    assert!(bool::try_from_env("K", Some(s("TRUE")), None).unwrap());
    assert!(bool::try_from_env("K", Some(s("True")), None).unwrap());
    assert!(!bool::try_from_env("K", Some(s("false")), None).unwrap());
    assert!(!bool::try_from_env("K", Some(s("FALSE")), None).unwrap());
    assert!(!bool::try_from_env("K", Some(s("fAlSe")), None).unwrap());
}

#[test]
fn booleans_reject_everything_else() {
    assert!(bool::try_from_env("K", Some(s("tru")), None).is_err());
    assert!(bool::try_from_env("K", Some(s("truee")), None).is_err());
    assert!(bool::try_from_env("K", Some(s("1")), None).is_err());
    assert!(bool::try_from_env("K", Some(s("yes")), None).is_err());
    assert!(bool::try_from_env("K", Some(s(" true")), None).is_err());
}

#[test]
fn text_is_taken_verbatim() {
    assert_eq!(String::try_from_env("K", Some(s("  spaced  ")), None).unwrap(), "  spaced  ");
    assert_eq!(String::try_from_env("K", Some(s("")), None).unwrap(), "");
    assert_eq!(String::try_from_env("K", Some(s("?!~")), None).unwrap(), "?!~");
}

#[test]
fn text_missing_is_an_error() {
    let e = String::try_from_env("GREETING", None, None).unwrap_err();
    assert_eq!(e, ResolutionError::MissingRequiredVariable { key: s("GREETING") });
}

#[test]
fn from_env_returns_the_parsed_value() {
    assert_eq!(u64::from_env("N", Some(s("18446744073709551615")), None), u64::MAX);
    assert_eq!(i128::from_env("N", None, Some(s("-5"))), -5);
    assert_eq!(bool::from_env("B", Some(s("False")), Some(s("true"))), false);
}
