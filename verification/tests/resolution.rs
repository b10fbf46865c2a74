// Scenario tests for the resolver, driven through the public API with the
// environment supplied as explicit key/value pairs.

use nb_from_env::{FieldDecl, FieldDescriptor, FromEnv, IntWidth, ResolutionError, ResolvedValue,
    ScalarKind, ScalarValue};
use nb_from_env::construct::{lookup_env, resolve_struct};
use nb_from_env::extract::extract;
use nb_from_env::resolve::resolve_field;

fn s(x: &str) -> String {
    x.to_string()
}

fn lookup(env: &[(&str, &str)], key: &str) -> Option<String> {
    env.iter().find(|(k, _)| *k == key).map(|(_, v)| v.to_string())
}

fn decl(name: &str, ty: &str, key: Option<&str>, default: Option<&str>) -> FieldDecl {
    FieldDecl {
        name: s(name),
        declared_type: s(ty),
        key_override: key.map(s),
        default: default.map(s),
    }
}

fn resolve(env: &[(&str, &str)], d: &FieldDecl) -> Result<ResolvedValue, ResolutionError> {
    let desc: FieldDescriptor = extract(d)?;
    resolve_field(&desc, lookup(env, desc.lookup_key.as_str()))
}

#[test]
fn test_from_env() {
    let env = [("NAME", "bob"), ("AGE", "30"), ("MOBILE", "123456"), ("MARRIED", "true")];

    let name = String::from_env("name", lookup(&env, "NAME"), None);
    let age = i32::from_env("age", lookup(&env, "AGE"), None);
    let phone = String::from_env("phone", lookup(&env, "MOBILE"), None);
    let address = Option::<String>::from_env("address", lookup(&env, "ADDRESS"), Some(s("unknown")));
    let married = Option::<bool>::from_env("married", lookup(&env, "MARRIED"), None);
    let credit_card = Option::<String>::from_env("credit_card", lookup(&env, "CREDIT_CARD"), None);
    let sex = String::from_env("sex", lookup(&env, "GENDER"), Some(s("famale")));

    assert!(name == "bob");
    assert!(age == 30);
    assert!(phone == "123456");
    assert!(address == Some("unknown".to_string()));
    assert!(married.unwrap());
    assert!(credit_card.is_none());
    assert!(sex == "famale");

    let env = [("NAME", "bob"), ("AGE", "30"), ("MOBILE", "123456"), ("MARRIED", "true"),
        ("GENDER", "male")];
    let sex = String::from_env("sex", lookup(&env, "GENDER"), Some(s("famale")));
    assert!(sex == "male");
}

#[test]
fn whole_struct_through_descriptors() {
    let env = [("NAME", "bob"), ("AGE", "30"), ("MOBILE", "123456"), ("MARRIED", "true")];
    let fields = [
        decl("name", "String", None, None),
        decl("age", "i32", None, None),
        decl("phone", "String", Some("MOBILE"), None),
        decl("address", "Option<String>", None, Some("unknown")),
        decl("married", "Option<bool>", None, None),
        decl("credit_card", "Option<String>", None, None),
        decl("sex", "String", Some("GENDER"), Some("famale")),
    ];
    let got: Vec<ResolvedValue> = fields.iter().map(|d| resolve(&env, d).unwrap()).collect();
    assert_eq!(got[0], ResolvedValue::Present(ScalarValue::Text(s("bob"))));
    assert_eq!(got[1], ResolvedValue::Present(ScalarValue::Signed(30)));
    assert_eq!(got[2], ResolvedValue::Present(ScalarValue::Text(s("123456"))));
    assert_eq!(got[3], ResolvedValue::Present(ScalarValue::Text(s("unknown"))));
    assert_eq!(got[4], ResolvedValue::Present(ScalarValue::Boolean(true)));
    assert_eq!(got[5], ResolvedValue::Absent);
    assert_eq!(got[6], ResolvedValue::Present(ScalarValue::Text(s("famale"))));
}

#[test]
fn gender_set_overrides_default() {
    let env = [("GENDER", "male")];
    let d = decl("sex", "String", Some("GENDER"), Some("famale"));
    assert_eq!(resolve(&env, &d).unwrap(), ResolvedValue::Present(ScalarValue::Text(s("male"))));
}

#[test]
fn default_used_when_unset() {
    let r = i32::try_from_env("PORT", None, Some(s("8080"))).unwrap();
    assert_eq!(r, 8080);
}

#[test]
fn environment_wins_over_default() {
    let r = i32::try_from_env("PORT", Some(s("90")), Some(s("8080"))).unwrap();
    assert_eq!(r, 90);
}

#[test]
fn optional_absent_without_entry_or_default() {
    let r = Option::<i64>::try_from_env("LIMIT", None, None).unwrap();
    assert_eq!(r, None);
}

#[test]
fn optional_present_from_entry() {
    let r = Option::<i64>::try_from_env("LIMIT", Some(s("-7")), None).unwrap();
    assert_eq!(r, Some(-7));
}

#[test]
fn optional_present_from_default() {
    let r = Option::<u16>::try_from_env("LIMIT", None, Some(s("1024"))).unwrap();
    assert_eq!(r, Some(1024));
}

#[test]
fn missing_required_names_the_key() {
    let e = u8::try_from_env("RETRIES", None, None).unwrap_err();
    assert_eq!(e, ResolutionError::MissingRequiredVariable { key: s("RETRIES") });
    assert_eq!(e.message(), "RETRIES is required");
}

#[test]
fn invalid_literal_names_key_value_and_kind() {
    let e = i32::try_from_env("AGE", Some(s("abc")), None).unwrap_err();
    assert_eq!(
        e,
        ResolutionError::InvalidLiteral {
            key: s("AGE"),
            raw_value: s("abc"),
            expected_kind: ScalarKind::Signed(IntWidth::W32),
        }
    );
    assert_eq!(e.message(), "AGE: abc is not a valid i32 literal");
}

#[test]
fn invalid_default_is_attributed_too() {
    let e = bool::try_from_env("VERBOSE", None, Some(s("yes"))).unwrap_err();
    assert_eq!(
        e,
        ResolutionError::InvalidLiteral {
            key: s("VERBOSE"),
            raw_value: s("yes"),
            expected_kind: ScalarKind::Boolean,
        }
    );
}

#[test]
fn optional_field_with_bad_entry_still_errors() {
    let e = Option::<u32>::try_from_env("COUNT", Some(s("-1")), None).unwrap_err();
    assert!(matches!(e, ResolutionError::InvalidLiteral { .. }));
}

#[test]
fn resolve_field_missing_required() {
    let d = decl("age", "i32", None, None);
    let e = resolve(&[], &d).unwrap_err();
    assert_eq!(e, ResolutionError::MissingRequiredVariable { key: s("AGE") });
}

#[test]
fn unsupported_message_names_the_type() {
    let d = decl("ratio", "f32", None, None);
    let e = resolve(&[], &d).unwrap_err();
    assert_eq!(e, ResolutionError::UnsupportedFieldType { declared_type: s("f32") });
    assert_eq!(e.message(), "f32 is not a supported field type");
}

#[test]
fn whole_struct_all_or_nothing() {
    let env: Vec<(String, String)> = vec![
        (s("NAME"), s("bob")),
        (s("AGE"), s("thirty")),
        (s("MOBILE"), s("123456")),
    ];
    let fields = vec![
        decl("name", "String", None, None),
        decl("age", "i32", None, None),
        decl("phone", "String", Some("MOBILE"), None),
    ];
    let e = resolve_struct(&fields, &env).unwrap_err();
    assert_eq!(
        e,
        ResolutionError::InvalidLiteral {
            key: s("AGE"),
            raw_value: s("thirty"),
            expected_kind: ScalarKind::Signed(IntWidth::W32),
        }
    );
}

#[test]
fn whole_struct_resolves_in_order() {
    let env: Vec<(String, String)> = vec![
        (s("NAME"), s("bob")),
        (s("AGE"), s("30")),
        (s("MOBILE"), s("123456")),
        (s("MARRIED"), s("true")),
    ];
    let fields = vec![
        decl("name", "String", None, None),
        decl("age", "i32", None, None),
        decl("phone", "String", Some("MOBILE"), None),
        decl("address", "Option<String>", None, Some("unknown")),
        decl("married", "Option<bool>", None, None),
        decl("credit_card", "Option<String>", None, None),
        decl("sex", "String", Some("GENDER"), Some("famale")),
    ];
    let got = resolve_struct(&fields, &env).unwrap();
    assert_eq!(got.len(), 7);
    assert_eq!(got[0], ResolvedValue::Present(ScalarValue::Text(s("bob"))));
    assert_eq!(got[1], ResolvedValue::Present(ScalarValue::Signed(30)));
    assert_eq!(got[4], ResolvedValue::Present(ScalarValue::Boolean(true)));
    assert_eq!(got[5], ResolvedValue::Absent);
    assert_eq!(got[6], ResolvedValue::Present(ScalarValue::Text(s("famale"))));
}

#[test]
fn lookup_is_exact_match_first_pair() {
    let env: Vec<(String, String)> = vec![
        (s("PATHX"), s("one")),
        (s("PATH"), s("two")),
        (s("PATH"), s("three")),
    ];
    assert_eq!(lookup_env(&env, "PATH"), Some(s("two")));
    assert_eq!(lookup_env(&env, "PAT"), None);
    assert_eq!(lookup_env(&env, "path"), None);
}
