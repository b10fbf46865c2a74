// Tests for the descriptor extractor: key derivation, annotations, type
// recognition, and rejection of unsupported declarations.

use nb_from_env::{FieldDecl, IntWidth, ResolutionError, ScalarKind};
use nb_from_env::extract::extract;

fn s(x: &str) -> String {
    x.to_string()
}

fn decl(name: &str, ty: &str, key: Option<&str>, default: Option<&str>) -> FieldDecl {
    FieldDecl {
        name: s(name),
        declared_type: s(ty),
        key_override: key.map(s),
        default: default.map(s),
    }
}

#[test]
fn key_is_uppercased_field_name() {
    let d = extract(&decl("phone", "String", None, None)).unwrap();
    assert_eq!(d.lookup_key, "PHONE");
    assert_eq!(d.default, None);
    assert!(!d.is_optional);
    assert_eq!(d.kind, ScalarKind::Text);
}

#[test]
fn key_derivation_keeps_non_letters() {
    let d = extract(&decl("cache_dir2", "String", None, None)).unwrap();
    assert_eq!(d.lookup_key, "CACHE_DIR2");
}

#[test]
fn explicit_key_wins_over_derived_name() {
    let d = extract(&decl("phone", "String", Some("MOBILE"), None)).unwrap();
    assert_eq!(d.lookup_key, "MOBILE");
}

#[test]
fn default_annotation_is_recorded_verbatim() {
    let d = extract(&decl("sex", "String", Some("GENDER"), Some("famale"))).unwrap();
    assert_eq!(d.lookup_key, "GENDER");
    assert_eq!(d.default, Some(s("famale")));
}

#[test]
fn every_scalar_type_name_is_recognised() {
    let cases = [
        ("String", ScalarKind::Text),
        ("bool", ScalarKind::Boolean),
        ("i8", ScalarKind::Signed(IntWidth::W8)),
        ("i16", ScalarKind::Signed(IntWidth::W16)),
        ("i32", ScalarKind::Signed(IntWidth::W32)),
        ("i64", ScalarKind::Signed(IntWidth::W64)),
        ("i128", ScalarKind::Signed(IntWidth::W128)),
        ("isize", ScalarKind::Signed(IntWidth::WSize)),
        ("u8", ScalarKind::Unsigned(IntWidth::W8)),
        ("u16", ScalarKind::Unsigned(IntWidth::W16)),
        ("u32", ScalarKind::Unsigned(IntWidth::W32)),
        ("u64", ScalarKind::Unsigned(IntWidth::W64)),
        ("u128", ScalarKind::Unsigned(IntWidth::W128)),
        ("usize", ScalarKind::Unsigned(IntWidth::WSize)),
    ];
    for (name, kind) in cases {
        let d = extract(&decl("field", name, None, None)).unwrap();
        assert_eq!(d.kind, kind);
        assert!(!d.is_optional);
    }
}

#[test]
fn option_marks_the_field_optional() {
    let d = extract(&decl("married", "Option<bool>", None, None)).unwrap();
    assert!(d.is_optional);
    assert_eq!(d.kind, ScalarKind::Boolean);
    let d = extract(&decl("address", "Option<String>", None, None)).unwrap();
    assert!(d.is_optional);
    assert_eq!(d.kind, ScalarKind::Text);
    let d = extract(&decl("age", "Option<i32>", None, None)).unwrap();
    assert!(d.is_optional);
    assert_eq!(d.kind, ScalarKind::Signed(IntWidth::W32));
}

#[test]
fn unsupported_types_are_rejected() {
    for ty in ["f32", "f64", "Vec<u8>", "Option<f64>", "Option<Option<i32>>", "char", "", "option<i32>"] {
        let e = extract(&decl("field", ty, None, None)).unwrap_err();
        assert_eq!(e, ResolutionError::UnsupportedFieldType { declared_type: s(ty) });
    }
}
