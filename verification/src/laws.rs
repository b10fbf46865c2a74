//! The laws the resolver obeys, stated over the mathematical model
//! ([`scalar_model`] / [`field_model`]) that the executable resolver is
//! proved to realise: canonical round-trips, precedence of the environment
//! over defaults, the absent value for optional fields, and the exact error
//! on missing or malformed inputs.

use vstd::prelude::*;
use crate::kind::{IntWidth, ScalarKind, max_signed, max_unsigned, min_signed};
use crate::parse::{all_digits, digit_val, digits_val, is_digit_char};
use crate::resolve::{Outcome, ValModel, chosen, field_model, lit_model, lit_ok, scalar_model};
use crate::text::upper_of;
use crate::extract::key_model;

verus! {

/// The digit character of one decimal digit.
pub open spec fn digit_char(d: int) -> char
    recommends
        0 <= d <= 9,
{
    if d == 0 {
        '0'
    } else if d == 1 {
        '1'
    } else if d == 2 {
        '2'
    } else if d == 3 {
        '3'
    } else if d == 4 {
        '4'
    } else if d == 5 {
        '5'
    } else if d == 6 {
        '6'
    } else if d == 7 {
        '7'
    } else if d == 8 {
        '8'
    } else {
        '9'
    }
}

/// The canonical decimal string of a non-negative number: no sign, no
/// leading zero (except for the number zero itself).
pub open spec fn dec_str(n: nat) -> Seq<char>
    decreases n,
{
    if n <= 9 {
        seq![digit_char(n as int)]
    } else {
        dec_str(n / 10).push(digit_char((n % 10) as int))
    }
}

/// The canonical string of a signed number: a `-` before the magnitude for
/// negative values, the bare magnitude otherwise.
pub open spec fn dec_str_signed(v: int) -> Seq<char> {
    if v < 0 {
        seq!['-'] + dec_str((-v) as nat)
    } else {
        dec_str(v as nat)
    }
}

/// The canonical string of a boolean.
pub open spec fn bool_str(b: bool) -> Seq<char> {
    if b {
        seq!['t', 'r', 'u', 'e']
    } else {
        seq!['f', 'a', 'l', 's', 'e']
    }
}

/// A digit string stays a digit string when a digit is appended.
proof fn lemma_all_digits_push(s: Seq<char>, c: char)
    requires
        all_digits(s),
        is_digit_char(c),
    ensures
        all_digits(s.push(c)),
{
    assert forall|i: int| 0 <= i < s.push(c).len() implies is_digit_char(s.push(c)[i]) by {
        if i < s.len() {
            assert(s.push(c)[i] == s[i]);
        } else {
            assert(s.push(c)[i] == c);
        }
    }
}

/// The canonical decimal string is non-empty, consists of digits, and
/// denotes exactly the number it was rendered from.
pub proof fn lemma_dec_str_denotes(n: nat)
    ensures
        dec_str(n).len() > 0,
        all_digits(dec_str(n)),
        digits_val(dec_str(n)) == n,
    decreases n,
{
    if n <= 9 {
        assert(dec_str(n).drop_last() =~= Seq::<char>::empty());
        assert(digits_val(Seq::<char>::empty()) == 0);
        assert(digits_val(dec_str(n)) == digit_val(digit_char(n as int)));
    } else {
        lemma_dec_str_denotes(n / 10);
        lemma_all_digits_push(dec_str(n / 10), digit_char((n % 10) as int));
        assert(dec_str(n).drop_last() =~= dec_str(n / 10));
        assert(digits_val(dec_str(n)) == digits_val(dec_str(n / 10)) * 10 + digit_val(
            digit_char((n % 10) as int),
        ));
    }
}

/// Round-trip for text: resolving a required text field whose environment
/// entry is any string yields that string, whatever the default.
pub proof fn lemma_roundtrip_text(
    key: Seq<char>,
    default: Option<Seq<char>>,
    s: Seq<char>,
)
    ensures
        scalar_model(ScalarKind::Text, key, Some(s), default) == Outcome::Val(ValModel::Text(s)),
{
}

/// Round-trip for booleans: resolving a required boolean field whose
/// environment entry is the canonical string of `b` yields `b`.
pub proof fn lemma_roundtrip_bool(key: Seq<char>, default: Option<Seq<char>>, b: bool)
    ensures
        scalar_model(ScalarKind::Boolean, key, Some(bool_str(b)), default) == Outcome::Val(
            ValModel::Truth(b),
        ),
{
}

/// Round-trip for unsigned integers: resolving a required unsigned field of
/// width `w` whose environment entry is the canonical string of `v` yields
/// `v` exactly, for every `v` in the width's range.
pub proof fn lemma_roundtrip_unsigned(
    w: IntWidth,
    key: Seq<char>,
    default: Option<Seq<char>>,
    v: int,
)
    requires
        0 <= v <= max_unsigned(w),
    ensures
        scalar_model(ScalarKind::Unsigned(w), key, Some(dec_str(v as nat)), default)
            == Outcome::Val(ValModel::UInt(v)),
{
    lemma_dec_str_denotes(v as nat);
}

/// Round-trip for signed integers: resolving a required signed field of
/// width `w` whose environment entry is the canonical string of `v` yields
/// `v` exactly, for every `v` in the width's range.
pub proof fn lemma_roundtrip_signed(
    w: IntWidth,
    key: Seq<char>,
    default: Option<Seq<char>>,
    v: int,
)
    requires
        min_signed(w) <= v <= max_signed(w),
    ensures
        scalar_model(ScalarKind::Signed(w), key, Some(dec_str_signed(v)), default) == Outcome::Val(
            ValModel::SInt(v),
        ),
{
    let s = dec_str_signed(v);
    if v < 0 {
        lemma_dec_str_denotes((-v) as nat);
        assert(s[0] == '-');
        assert(s.subrange(1, s.len() as int) =~= dec_str((-v) as nat));
    } else {
        lemma_dec_str_denotes(v as nat);
        assert(is_digit_char(s[0]));
    }
}

/// A field with an explicit default and no environment entry resolves to the
/// parsed default, required or optional alike.
pub proof fn lemma_default_used(
    kind: ScalarKind,
    is_optional: bool,
    key: Seq<char>,
    d: Seq<char>,
)
    requires
        lit_ok(kind, d),
    ensures
        field_model(kind, is_optional, key, None, Some(d)) == Outcome::Val(lit_model(kind, d)),
{
}

/// An environment entry, when present, always wins: the default plays no
/// part in the outcome, and a well-formed entry resolves to its own parsed
/// value.
pub proof fn lemma_env_wins_over_default(
    kind: ScalarKind,
    is_optional: bool,
    key: Seq<char>,
    v: Seq<char>,
    default: Option<Seq<char>>,
)
    ensures
        field_model(kind, is_optional, key, Some(v), default) == field_model(
            kind,
            is_optional,
            key,
            Some(v),
            None,
        ),
        lit_ok(kind, v) ==> field_model(kind, is_optional, key, Some(v), default) == Outcome::Val(
            lit_model(kind, v),
        ),
{
}

/// An optional field with neither environment entry nor default resolves to
/// the absent value, never an error.
pub proof fn lemma_optional_absent(kind: ScalarKind, key: Seq<char>)
    ensures
        field_model(kind, true, key, None, None) == Outcome::Absent,
{
}

/// A required field with neither environment entry nor default fails with
/// `MissingRequiredVariable`, naming the field's own lookup key.
pub proof fn lemma_required_missing(kind: ScalarKind, key: Seq<char>)
    ensures
        field_model(kind, false, key, None, None) == (Outcome::Missing { key }),
{
}

/// A picked string that does not fit the field's kind fails with
/// `InvalidLiteral`, naming the field's key, the offending string, and the
/// expected kind — whether the string came from the environment or from the
/// default.
pub proof fn lemma_invalid_literal(
    kind: ScalarKind,
    is_optional: bool,
    key: Seq<char>,
    val: Option<Seq<char>>,
    default: Option<Seq<char>>,
    raw: Seq<char>,
)
    requires
        chosen(val, default) == Some(raw),
        !lit_ok(kind, raw),
    ensures
        field_model(kind, is_optional, key, val, default) == (Outcome::Invalid { key, raw, kind }),
{
}

/// An explicit key annotation always wins over the derived name; without
/// one, the key is the field's identifier upper-cased.
pub proof fn lemma_explicit_key_wins(name: Seq<char>, k: Seq<char>)
    ensures
        key_model(name, Some(k)) == k,
        key_model(name, None) == upper_of(name),
{
}

} // verus!
