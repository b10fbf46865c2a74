//! The field descriptor extractor: from one field's declaration (its
//! identifier, its declared type written as in source, and its optional
//! per-field annotations) to the compiled [`FieldDescriptor`].
//!
//! Rules:
//! - the lookup key is the explicit key annotation when one is given, else
//!   the field's identifier upper-cased;
//! - the default literal is recorded verbatim when an annotation supplies
//!   one, else the field has no default;
//! - a declared type `Option<K>` over a supported scalar marks the field
//!   optional with inner kind `K`; a supported scalar alone is a required
//!   field; anything else is `UnsupportedFieldType`.

use vstd::prelude::*;
use crate::kind::{IntWidth, ScalarKind};
use crate::resolve::{FieldDescriptor, ResolutionError};
use crate::text::{ascii_upper, clone_opt_string, str_eq, upper_of};

verus! {

/// One struct field as its author declared it: the pure, environment-free
/// input of descriptor construction.
#[derive(Clone, Debug, PartialEq, Eq)]
pub struct FieldDecl {
    /// The field's identifier.
    pub name: String,
    /// The declared type, written as in source (`i32`, `Option<String>`, ...).
    pub declared_type: String,
    /// The explicit key annotation, if the declaration carries one.
    pub key_override: Option<String>,
    /// The explicit default annotation, if the declaration carries one.
    pub default: Option<String>,
}

/// The scalar kind a bare type name denotes, if it is one of the supported
/// set.
pub open spec fn base_kind_named(s: Seq<char>) -> Option<ScalarKind> {
    if s == "String"@ {
        Some(ScalarKind::Text)
    } else if s == "bool"@ {
        Some(ScalarKind::Boolean)
    } else if s == "i8"@ {
        Some(ScalarKind::Signed(IntWidth::W8))
    } else if s == "i16"@ {
        Some(ScalarKind::Signed(IntWidth::W16))
    } else if s == "i32"@ {
        Some(ScalarKind::Signed(IntWidth::W32))
    } else if s == "i64"@ {
        Some(ScalarKind::Signed(IntWidth::W64))
    } else if s == "i128"@ {
        Some(ScalarKind::Signed(IntWidth::W128))
    } else if s == "isize"@ {
        Some(ScalarKind::Signed(IntWidth::WSize))
    } else if s == "u8"@ {
        Some(ScalarKind::Unsigned(IntWidth::W8))
    } else if s == "u16"@ {
        Some(ScalarKind::Unsigned(IntWidth::W16))
    } else if s == "u32"@ {
        Some(ScalarKind::Unsigned(IntWidth::W32))
    } else if s == "u64"@ {
        Some(ScalarKind::Unsigned(IntWidth::W64))
    } else if s == "u128"@ {
        Some(ScalarKind::Unsigned(IntWidth::W128))
    } else if s == "usize"@ {
        Some(ScalarKind::Unsigned(IntWidth::WSize))
    } else {
        None
    }
}

/// The inner type name of a declared `Option<...>`, if the declaration has
/// that shape.
pub open spec fn option_inner(s: Seq<char>) -> Option<Seq<char>> {
    if s.len() >= 8 && s.subrange(0, 7) == "Option<"@ && s[s.len() - 1] == '>' {
        Some(s.subrange(7, s.len() - 1))
    } else {
        None
    }
}

/// What a declared type name means: its scalar kind and whether the field is
/// optional; `None` for an unsupported declaration.
pub open spec fn declared_model(s: Seq<char>) -> Option<(ScalarKind, bool)> {
    match option_inner(s) {
        Some(inner) => match base_kind_named(inner) {
            Some(k) => Some((k, true)),
            None => None,
        },
        None => match base_kind_named(s) {
            Some(k) => Some((k, false)),
            None => None,
        },
    }
}

/// The lookup key a declaration gets: the explicit annotation verbatim when
/// present, else the identifier upper-cased.
pub open spec fn key_model(name: Seq<char>, key_override: Option<Seq<char>>) -> Seq<char> {
    match key_override {
        Some(k) => k,
        None => upper_of(name),
    }
}

/// Executable form of `base_kind_named`.
fn base_kind_of(s: &str) -> (r: Option<ScalarKind>)
    ensures
        r == base_kind_named(s@),
{
    if str_eq(s, "String") {
        Some(ScalarKind::Text)
    } else if str_eq(s, "bool") {
        Some(ScalarKind::Boolean)
    } else if str_eq(s, "i8") {
        Some(ScalarKind::Signed(IntWidth::W8))
    } else if str_eq(s, "i16") {
        Some(ScalarKind::Signed(IntWidth::W16))
    } else if str_eq(s, "i32") {
        Some(ScalarKind::Signed(IntWidth::W32))
    } else if str_eq(s, "i64") {
        Some(ScalarKind::Signed(IntWidth::W64))
    } else if str_eq(s, "i128") {
        Some(ScalarKind::Signed(IntWidth::W128))
    } else if str_eq(s, "isize") {
        Some(ScalarKind::Signed(IntWidth::WSize))
    } else if str_eq(s, "u8") {
        Some(ScalarKind::Unsigned(IntWidth::W8))
    } else if str_eq(s, "u16") {
        Some(ScalarKind::Unsigned(IntWidth::W16))
    } else if str_eq(s, "u32") {
        Some(ScalarKind::Unsigned(IntWidth::W32))
    } else if str_eq(s, "u64") {
        Some(ScalarKind::Unsigned(IntWidth::W64))
    } else if str_eq(s, "u128") {
        Some(ScalarKind::Unsigned(IntWidth::W128))
    } else if str_eq(s, "usize") {
        Some(ScalarKind::Unsigned(IntWidth::WSize))
    } else {
        None
    }
}

/// Recognise the declared type: its kind and optionality, or `None` when it
/// is not supported.
fn recognise_declared(s: &str) -> (r: Option<(ScalarKind, bool)>)
    ensures
        r == declared_model(s@),
{
    let n = s.unicode_len();
    if n >= 8 {
        let prefix = s.substring_char(0, 7);
        if str_eq(prefix, "Option<") && s.get_char(n - 1) == '>' {
            let inner = s.substring_char(7, n - 1);
            return match base_kind_of(inner) {
                Some(k) => Some((k, true)),
                None => None,
            };
        }
    }
    proof {
        assert(option_inner(s@) is None);
    }
    match base_kind_of(s) {
        Some(k) => Some((k, false)),
        None => None,
    }
}

/// Compile one field declaration into its descriptor. Deterministic, free of
/// side effects, and independent of the environment: an unsupported declared
/// type is rejected here, before any environment is read.
pub fn extract(decl: &FieldDecl) -> (r: Result<FieldDescriptor, ResolutionError>)
    ensures
        match declared_model(decl.declared_type@) {
            Some(ko) => r matches Ok(d) && d.kind == ko.0 && d.is_optional == ko.1
                && d.lookup_key@ == key_model(decl.name@, decl.key_override.deep_view())
                && d.default.deep_view() == decl.default.deep_view(),
            None => r matches Err(ResolutionError::UnsupportedFieldType { declared_type: t })
                && t@ == decl.declared_type@,
        },
{
    let recognised = recognise_declared(decl.declared_type.as_str());
    match recognised {
        None => Err(
            ResolutionError::UnsupportedFieldType { declared_type: decl.declared_type.clone() },
        ),
        Some(ko) => {
            let lookup_key: String = match &decl.key_override {
                Some(k) => k.clone(),
                None => ascii_upper(decl.name.as_str()),
            };
            let default = clone_opt_string(&decl.default);
            Ok(FieldDescriptor { lookup_key, default, is_optional: ko.1, kind: ko.0 })
        },
    }
}

} // verus!
