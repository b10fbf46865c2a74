//! The value resolver: given one field's descriptor and the string the
//! environment holds under its lookup key (if any), produce a typed value or
//! a descriptive error.
//!
//! Resolution of one field, per the precedence rules:
//! 1. an environment entry, when present, always wins over a default;
//! 2. a default, when present, stands in for a missing entry;
//! 3. with neither, an optional field resolves to the absent value and a
//!    required field fails with `MissingRequiredVariable`;
//! 4. whichever string was picked is parsed as the field's scalar kind, and
//!    a parse failure is `InvalidLiteral`, naming the key, the offending
//!    string, and the kind.

use vstd::prelude::*;
use crate::kind::ScalarKind;
use crate::text::clone_opt_string;
use crate::parse::{bool_lit_ok, bool_lit_val, digits_val, parse_bool, parse_signed,
    parse_unsigned, signed_lit_ok, signed_lit_val, unsigned_lit_ok};

verus! {

/// Compiled, immutable metadata for one struct field: where to look, what to
/// fall back to, whether absence is allowed, and how to parse.
#[derive(Clone, Debug, PartialEq, Eq)]
pub struct FieldDescriptor {
    /// The environment variable name to query.
    pub lookup_key: String,
    /// The literal to parse when the environment has no entry.
    pub default: Option<String>,
    /// Whether the field may resolve to the absent value.
    pub is_optional: bool,
    /// The scalar kind the chosen string is parsed as.
    pub kind: ScalarKind,
}

/// A parsed scalar, tagged by kind. Signed integers of every width share the
/// `i128` carrier and unsigned ones the `u128` carrier; the descriptor's
/// width bounds the value.
#[derive(Clone, Debug, PartialEq, Eq)]
pub enum ScalarValue {
    Text(String),
    Signed(i128),
    Unsigned(u128),
    Boolean(bool),
}

/// The outcome of resolving one field: a parsed scalar, or absence (for an
/// optional field with neither environment entry nor default).
#[derive(Clone, Debug, PartialEq, Eq)]
pub enum ResolvedValue {
    Absent,
    Present(ScalarValue),
}

/// Why a construction failed. Every variant names what a caller needs to
/// know: the offending key and, for parse failures, the raw string and the
/// kind it was expected to be.
#[derive(Clone, Debug, PartialEq, Eq)]
pub enum ResolutionError {
    /// A declared field type is not a supported scalar or an `Option` of one;
    /// found at descriptor-construction time, before any environment is read.
    UnsupportedFieldType { declared_type: String },
    /// A required field had neither an environment entry nor a default.
    MissingRequiredVariable { key: String },
    /// The chosen string could not be parsed as the field's kind.
    InvalidLiteral { key: String, raw_value: String, expected_kind: ScalarKind },
}

/// Mathematical image of one parsed scalar.
pub ghost enum ValModel {
    Text(Seq<char>),
    SInt(int),
    UInt(int),
    Truth(bool),
}

/// Mathematical image of one field's resolution outcome.
pub ghost enum Outcome {
    Absent,
    Val(ValModel),
    Missing { key: Seq<char> },
    Invalid { key: Seq<char>, raw: Seq<char>, kind: ScalarKind },
}

/// The string resolution picks, by precedence: the environment entry when
/// present, else the default.
pub open spec fn chosen(val: Option<Seq<char>>, default: Option<Seq<char>>) -> Option<Seq<char>> {
    if val is Some {
        val
    } else {
        default
    }
}

/// Does `raw` fit the textual grammar and range of `kind`?
pub open spec fn lit_ok(kind: ScalarKind, raw: Seq<char>) -> bool {
    match kind {
        ScalarKind::Text => true,
        ScalarKind::Signed(w) => signed_lit_ok(w, raw),
        ScalarKind::Unsigned(w) => unsigned_lit_ok(w, raw),
        ScalarKind::Boolean => bool_lit_ok(raw),
    }
}

/// The value a well-formed literal of `kind` denotes.
pub open spec fn lit_model(kind: ScalarKind, raw: Seq<char>) -> ValModel {
    match kind {
        ScalarKind::Text => ValModel::Text(raw),
        ScalarKind::Signed(w) => ValModel::SInt(signed_lit_val(raw)),
        ScalarKind::Unsigned(w) => ValModel::UInt(digits_val(raw)),
        ScalarKind::Boolean => ValModel::Truth(bool_lit_val(raw)),
    }
}

/// The whole resolution algorithm for a required field, as a function: pick
/// the string by precedence, then parse it as `kind`.
pub open spec fn scalar_model(
    kind: ScalarKind,
    key: Seq<char>,
    val: Option<Seq<char>>,
    default: Option<Seq<char>>,
) -> Outcome {
    match chosen(val, default) {
        Some(raw) => if lit_ok(kind, raw) {
            Outcome::Val(lit_model(kind, raw))
        } else {
            Outcome::Invalid { key, raw, kind }
        },
        None => Outcome::Missing { key },
    }
}

/// Does required-field resolution succeed on these inputs: is a string
/// picked at all, and does it parse as `kind`?
pub open spec fn scalar_ok(
    kind: ScalarKind,
    val: Option<Seq<char>>,
    default: Option<Seq<char>>,
) -> bool {
    match chosen(val, default) {
        Some(raw) => lit_ok(kind, raw),
        None => false,
    }
}

/// The value a successful required-field resolution denotes.
pub open spec fn scalar_value_model(
    kind: ScalarKind,
    val: Option<Seq<char>>,
    default: Option<Seq<char>>,
) -> ValModel
    recommends
        scalar_ok(kind, val, default),
{
    match chosen(val, default) {
        Some(raw) => lit_model(kind, raw),
        None => arbitrary(),
    }
}

/// The whole resolution algorithm for a field of a descriptor, optionality
/// included.
pub open spec fn field_model(
    kind: ScalarKind,
    is_optional: bool,
    key: Seq<char>,
    val: Option<Seq<char>>,
    default: Option<Seq<char>>,
) -> Outcome {
    if is_optional && val is None && default is None {
        Outcome::Absent
    } else {
        scalar_model(kind, key, val, default)
    }
}

/// Does the executable scalar carry exactly the modelled value?
pub open spec fn value_matches(m: ValModel, v: ScalarValue) -> bool {
    match m {
        ValModel::Text(t) => v matches ScalarValue::Text(s) && s@ == t,
        ValModel::SInt(n) => v matches ScalarValue::Signed(x) && x as int == n,
        ValModel::UInt(n) => v matches ScalarValue::Unsigned(x) && x as int == n,
        ValModel::Truth(b) => v matches ScalarValue::Boolean(c) && c == b,
    }
}

/// Does the executable result of a required-field resolution carry exactly
/// the modelled outcome?
pub open spec fn scalar_result_matches(o: Outcome, r: Result<ScalarValue, ResolutionError>) -> bool {
    match o {
        Outcome::Absent => false,
        Outcome::Val(m) => r matches Ok(v) && value_matches(m, v),
        Outcome::Missing { key } => r matches Err(
            ResolutionError::MissingRequiredVariable { key: k },
        ) && k@ == key,
        Outcome::Invalid { key, raw, kind } => r matches Err(
            ResolutionError::InvalidLiteral { key: k, raw_value: rv, expected_kind: ek },
        ) && k@ == key && rv@ == raw && ek == kind,
    }
}

/// Does the executable result of a full field resolution carry exactly the
/// modelled outcome?
pub open spec fn field_result_matches(
    o: Outcome,
    r: Result<ResolvedValue, ResolutionError>,
) -> bool {
    match o {
        Outcome::Absent => r matches Ok(ResolvedValue::Absent),
        Outcome::Val(m) => r matches Ok(ResolvedValue::Present(v)) && value_matches(m, v),
        Outcome::Missing { key } => r matches Err(
            ResolutionError::MissingRequiredVariable { key: k },
        ) && k@ == key,
        Outcome::Invalid { key, raw, kind } => r matches Err(
            ResolutionError::InvalidLiteral { key: k, raw_value: rv, expected_kind: ek },
        ) && k@ == key && rv@ == raw && ek == kind,
    }
}

/// Parse `raw` as `kind`. Succeeds exactly when `raw` fits the kind's
/// grammar and range, and then carries the denoted value.
pub fn parse_scalar(kind: ScalarKind, raw: &str) -> (r: Result<ScalarValue, ()>)
    ensures
        match r {
            Ok(v) => lit_ok(kind, raw@) && value_matches(lit_model(kind, raw@), v),
            Err(()) => !lit_ok(kind, raw@),
        },
{
    match kind {
        ScalarKind::Text => Ok(ScalarValue::Text(String::from_str(raw))),
        ScalarKind::Signed(w) => match parse_signed(w, raw) {
            Ok(x) => Ok(ScalarValue::Signed(x)),
            Err(()) => Err(()),
        },
        ScalarKind::Unsigned(w) => match parse_unsigned(w, raw) {
            Ok(x) => Ok(ScalarValue::Unsigned(x)),
            Err(()) => Err(()),
        },
        ScalarKind::Boolean => match parse_bool(raw) {
            Ok(b) => Ok(ScalarValue::Boolean(b)),
            Err(()) => Err(()),
        },
    }
}

/// Resolve a required field of kind `kind` whose lookup key is `env_var`:
/// the environment entry `val` wins over `default`; the picked string is
/// parsed as `kind`; with neither string the resolution fails.
pub fn resolve_scalar(
    kind: ScalarKind,
    env_var: &str,
    val: Option<String>,
    default: Option<String>,
) -> (r: Result<ScalarValue, ResolutionError>)
    ensures
        scalar_result_matches(scalar_model(kind, env_var@, val.deep_view(), default.deep_view()), r),
{
    let raw: String = match val {
        Some(v) => v,
        None => match default {
            Some(d) => d,
            None => {
                return Err(
                    ResolutionError::MissingRequiredVariable { key: String::from_str(env_var) },
                );
            },
        },
    };
    match parse_scalar(kind, raw.as_str()) {
        Ok(v) => Ok(v),
        Err(()) => Err(
            ResolutionError::InvalidLiteral {
                key: String::from_str(env_var),
                raw_value: raw,
                expected_kind: kind,
            },
        ),
    }
}

/// Resolve one field of a descriptor against the environment entry `val`
/// found under its lookup key. This is the whole per-field algorithm:
/// precedence, optionality, parsing, and error attribution.
pub fn resolve_field(desc: &FieldDescriptor, val: Option<String>) -> (r: Result<
    ResolvedValue,
    ResolutionError,
>)
    ensures
        field_result_matches(
            field_model(
                desc.kind,
                desc.is_optional,
                desc.lookup_key@,
                val.deep_view(),
                desc.default.deep_view(),
            ),
            r,
        ),
{
    if desc.is_optional && val.is_none() && desc.default.is_none() {
        return Ok(ResolvedValue::Absent);
    }
    let default = clone_opt_string(&desc.default);
    match resolve_scalar(desc.kind, desc.lookup_key.as_str(), val, default) {
        Ok(v) => Ok(ResolvedValue::Present(v)),
        Err(e) => Err(e),
    }
}

/// What a resolution error says, spelled out: the offending key and, for
/// parse failures, the raw string and the expected kind.
pub open spec fn message_model(e: ResolutionError) -> Seq<char> {
    match e {
        ResolutionError::UnsupportedFieldType { declared_type } => declared_type@
            + " is not a supported field type"@,
        ResolutionError::MissingRequiredVariable { key } => key@ + " is required"@,
        ResolutionError::InvalidLiteral { key, raw_value, expected_kind } => key@ + ": "@
            + raw_value@ + " is not a valid "@ + crate::kind::kind_label(expected_kind)
            + " literal"@,
    }
}

impl ResolutionError {
    /// The error's descriptive message.
    pub fn message(&self) -> (m: String)
        ensures
            m@ == message_model(*self),
    {
        match self {
            ResolutionError::UnsupportedFieldType { declared_type } => declared_type.clone()
                .concat(" is not a supported field type"),
            ResolutionError::MissingRequiredVariable { key } => key.clone().concat(" is required"),
            ResolutionError::InvalidLiteral { key, raw_value, expected_kind } => key.clone()
                .concat(": ").concat(raw_value.as_str()).concat(" is not a valid ").concat(
                expected_kind.label(),
            ).concat(" literal"),
        }
    }
}

} // verus!
