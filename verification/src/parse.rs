//! Verified parsers for the textual grammar of each scalar kind: decimal
//! digit strings for the integer kinds (with an optional leading sign for the
//! signed ones) and `true` / `false` in any letter case for booleans.

use vstd::prelude::*;
use crate::kind::{IntWidth, max_signed, max_signed_u128, max_unsigned, max_unsigned_u128,
    min_signed, min_signed_magnitude_u128};

verus! {

/// Is `c` one of the ten ASCII decimal digits?
pub open spec fn is_digit_char(c: char) -> bool {
    48 <= c as u32 <= 57
}

/// Numeric value of a digit character.
pub open spec fn digit_val(c: char) -> int {
    c as u32 - 48
}

/// Does `s` consist of decimal digits only?
pub open spec fn all_digits(s: Seq<char>) -> bool {
    forall|i: int| 0 <= i < s.len() ==> is_digit_char(#[trigger] s[i])
}

/// The number a digit string denotes, read in base ten.
pub open spec fn digits_val(s: Seq<char>) -> int
    decreases s.len(),
{
    if s.len() == 0 {
        0
    } else {
        digits_val(s.drop_last()) * 10 + digit_val(s.last())
    }
}

/// A digit string denotes a non-negative number.
pub proof fn lemma_digits_val_nonneg(s: Seq<char>)
    requires
        all_digits(s),
    ensures
        digits_val(s) >= 0,
    decreases s.len(),
{
    if s.len() > 0 {
        assert(all_digits(s.drop_last()));
        lemma_digits_val_nonneg(s.drop_last());
    }
}

/// Reading more digits never makes the denoted number smaller: every prefix
/// of a digit string denotes at most the whole string's value.
pub proof fn lemma_digits_val_prefix_le(s: Seq<char>, i: int)
    requires
        all_digits(s),
        0 <= i <= s.len(),
    ensures
        digits_val(s.subrange(0, i)) <= digits_val(s),
    decreases s.len() - i,
{
    if i == s.len() {
        assert(s.subrange(0, i) =~= s);
    } else {
        let shorter = s.subrange(0, i);
        let longer = s.subrange(0, i + 1);
        assert(longer.drop_last() =~= shorter);
        assert(all_digits(shorter));
        lemma_digits_val_nonneg(shorter);
        assert(digits_val(longer) == digits_val(shorter) * 10 + digit_val(s[i]));
        lemma_digits_val_prefix_le(s, i + 1);
    }
}

/// Parse `s` as an unadorned digit string whose value is at most `max`.
/// Succeeds exactly on non-empty all-digit strings denoting at most `max`,
/// and then returns the denoted value.
pub fn parse_digits_up_to(s: &str, max: u128) -> (r: Result<u128, ()>)
    ensures
        match r {
            Ok(v) => s@.len() > 0 && all_digits(s@) && digits_val(s@) <= max as int && v as int
                == digits_val(s@) && v <= max,
            Err(()) => !(s@.len() > 0 && all_digits(s@) && digits_val(s@) <= max as int),
        },
{
    let n = s.unicode_len();
    if n == 0 {
        return Err(());
    }
    let mut acc: u128 = 0;
    let mut i: usize = 0;
    while i < n
        invariant
            0 <= i <= n,
            n == s@.len(),
            all_digits(s@.subrange(0, i as int)),
            acc as int == digits_val(s@.subrange(0, i as int)),
            acc <= max,
        decreases n - i,
    {
        let c = s.get_char(i);
        let cu = c as u32;
        if cu < 48 || cu > 57 {
            assert(!is_digit_char(s@[i as int]));
            return Err(());
        }
        let d = (cu - 48) as u128;
        proof {
            assert(s@.subrange(0, (i + 1) as int).drop_last() =~= s@.subrange(0, i as int));
            assert(digits_val(s@.subrange(0, (i + 1) as int)) == acc * 10 + d);
        }
        let stepped: Option<u128> = match acc.checked_mul(10) {
            Some(x) => x.checked_add(d),
            None => None,
        };
        let next: u128 = match stepped {
            Some(y) => y,
            None => {
                proof {
                    overflow_means_too_big(s@, i as int, max as int, acc * 10 + d);
                }
                return Err(());
            },
        };
        if next > max {
            proof {
                overflow_means_too_big(s@, i as int, max as int, next as int);
            }
            return Err(());
        }
        acc = next;
        i = i + 1;
    }
    proof {
        assert(s@.subrange(0, n as int) =~= s@);
    }
    Ok(acc)
}

/// If the prefix through position `i` already denotes more than `max`, the
/// whole string cannot be an all-digit string denoting at most `max`.
proof fn overflow_means_too_big(s: Seq<char>, i: int, max: int, prefix_val: int)
    requires
        0 <= i < s.len(),
        prefix_val == digits_val(s.subrange(0, i + 1)),
        prefix_val > max,
    ensures
        !(s.len() > 0 && all_digits(s) && digits_val(s) <= max),
{
    if s.len() > 0 && all_digits(s) && digits_val(s) <= max {
        lemma_digits_val_prefix_le(s, i + 1);
        assert(false);
    }
}

/// Does `s` open with an explicit sign character?
pub open spec fn has_sign(s: Seq<char>) -> bool {
    s.len() > 0 && (s[0] == '+' || s[0] == '-')
}

/// `s` without its sign character, if it has one.
pub open spec fn lit_body(s: Seq<char>) -> Seq<char> {
    if has_sign(s) {
        s.subrange(1, s.len() as int)
    } else {
        s
    }
}

/// Does `s` denote a negative number (a `-` sign and digits after it)?
pub open spec fn is_negative_lit(s: Seq<char>) -> bool {
    s.len() > 0 && s[0] == '-'
}

/// The signed-integer grammar: an optional `+` or `-`, then one or more
/// decimal digits.
pub open spec fn signed_digits_ok(s: Seq<char>) -> bool {
    lit_body(s).len() > 0 && all_digits(lit_body(s))
}

/// The number a well-formed signed literal denotes.
pub open spec fn signed_lit_val(s: Seq<char>) -> int {
    if is_negative_lit(s) {
        -digits_val(lit_body(s))
    } else {
        digits_val(lit_body(s))
    }
}

/// Is `s` a signed literal whose value fits the width `w`?
pub open spec fn signed_lit_ok(w: IntWidth, s: Seq<char>) -> bool {
    signed_digits_ok(s) && min_signed(w) <= signed_lit_val(s) <= max_signed(w)
}

/// Is `s` an unsigned literal (digits only, no sign) whose value fits `w`?
pub open spec fn unsigned_lit_ok(w: IntWidth, s: Seq<char>) -> bool {
    s.len() > 0 && all_digits(s) && digits_val(s) <= max_unsigned(w)
}

/// Parse `s` as a signed integer of width `w`. Succeeds exactly when `s`
/// fits the signed grammar and range of `w`, and then returns the denoted
/// value (which always fits an `i128`).
pub fn parse_signed(w: IntWidth, s: &str) -> (r: Result<i128, ()>)
    ensures
        match r {
            Ok(v) => signed_lit_ok(w, s@) && v as int == signed_lit_val(s@),
            Err(()) => !signed_lit_ok(w, s@),
        },
{
    let n = s.unicode_len();
    if n == 0 {
        return Err(());
    }
    let c0 = s.get_char(0);
    let neg = c0 == '-';
    let skip_sign = neg || c0 == '+';
    let body: &str = if skip_sign {
        s.substring_char(1, n)
    } else {
        s
    };
    proof {
        assert(body@ =~= lit_body(s@));
    }
    let bound: u128 = if neg {
        min_signed_magnitude_u128(w)
    } else {
        max_signed_u128(w)
    };
    match parse_digits_up_to(body, bound) {
        Ok(mag) => {
            if neg {
                if mag == 0 {
                    Ok(0)
                } else {
                    let m1 = (mag - 1) as i128;
                    Ok(-m1 - 1)
                }
            } else {
                Ok(mag as i128)
            }
        },
        Err(()) => {
            proof {
                if signed_lit_ok(w, s@) {
                    lemma_digits_val_nonneg(lit_body(s@));
                    assert(false);
                }
            }
            Err(())
        },
    }
}

/// Parse `s` as an unsigned integer of width `w`. Succeeds exactly when `s`
/// fits the unsigned grammar and range of `w`, and then returns the denoted
/// value (which always fits a `u128`).
pub fn parse_unsigned(w: IntWidth, s: &str) -> (r: Result<u128, ()>)
    ensures
        match r {
            Ok(v) => unsigned_lit_ok(w, s@) && v as int == digits_val(s@),
            Err(()) => !unsigned_lit_ok(w, s@),
        },
{
    match parse_digits_up_to(s, max_unsigned_u128(w)) {
        Ok(v) => Ok(v),
        Err(()) => Err(()),
    }
}

/// Is `s` the word `true`, in any letter case?
pub open spec fn is_true_lit(s: Seq<char>) -> bool {
    s.len() == 4 && (s[0] == 't' || s[0] == 'T') && (s[1] == 'r' || s[1] == 'R') && (s[2] == 'u'
        || s[2] == 'U') && (s[3] == 'e' || s[3] == 'E')
}

/// Is `s` the word `false`, in any letter case?
pub open spec fn is_false_lit(s: Seq<char>) -> bool {
    s.len() == 5 && (s[0] == 'f' || s[0] == 'F') && (s[1] == 'a' || s[1] == 'A') && (s[2] == 'l'
        || s[2] == 'L') && (s[3] == 's' || s[3] == 'S') && (s[4] == 'e' || s[4] == 'E')
}

/// The boolean grammar: `true` or `false`, ignoring letter case.
pub open spec fn bool_lit_ok(s: Seq<char>) -> bool {
    is_true_lit(s) || is_false_lit(s)
}

/// The value a well-formed boolean literal denotes.
pub open spec fn bool_lit_val(s: Seq<char>) -> bool {
    is_true_lit(s)
}

/// Parse `s` as a boolean. Succeeds exactly on `true` or `false` in any
/// letter case, and then returns the denoted value.
pub fn parse_bool(s: &str) -> (r: Result<bool, ()>)
    ensures
        match r {
            Ok(v) => bool_lit_ok(s@) && v == bool_lit_val(s@),
            Err(()) => !bool_lit_ok(s@),
        },
{
    let n = s.unicode_len();
    if n == 4 {
        let ok = (s.get_char(0) == 't' || s.get_char(0) == 'T') && (s.get_char(1) == 'r'
            || s.get_char(1) == 'R') && (s.get_char(2) == 'u' || s.get_char(2) == 'U') && (
        s.get_char(3) == 'e' || s.get_char(3) == 'E');
        if ok {
            Ok(true)
        } else {
            Err(())
        }
    } else if n == 5 {
        let ok = (s.get_char(0) == 'f' || s.get_char(0) == 'F') && (s.get_char(1) == 'a'
            || s.get_char(1) == 'A') && (s.get_char(2) == 'l' || s.get_char(2) == 'L') && (
        s.get_char(3) == 's' || s.get_char(3) == 'S') && (s.get_char(4) == 'e' || s.get_char(4)
            == 'E');
        if ok {
            Ok(false)
        } else {
            Err(())
        }
    } else {
        Err(())
    }
}

} // verus!
