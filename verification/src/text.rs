//! Small verified string utilities: character-wise equality, ASCII
//! upper-casing, and cloning of optional strings.

use vstd::prelude::*;

verus! {

/// `c` with a lower-case ASCII letter raised to its upper-case form; any
/// other character is kept as it is.
pub open spec fn upper_char(c: char) -> char {
    match c {
        'a' => 'A',
        'b' => 'B',
        'c' => 'C',
        'd' => 'D',
        'e' => 'E',
        'f' => 'F',
        'g' => 'G',
        'h' => 'H',
        'i' => 'I',
        'j' => 'J',
        'k' => 'K',
        'l' => 'L',
        'm' => 'M',
        'n' => 'N',
        'o' => 'O',
        'p' => 'P',
        'q' => 'Q',
        'r' => 'R',
        's' => 'S',
        't' => 'T',
        'u' => 'U',
        'v' => 'V',
        'w' => 'W',
        'x' => 'X',
        'y' => 'Y',
        'z' => 'Z',
        _ => c,
    }
}

/// `s` with every character upper-cased by `upper_char`.
pub open spec fn upper_of(s: Seq<char>) -> Seq<char> {
    Seq::new(s.len(), |i: int| upper_char(s[i]))
}

/// Executable form of `upper_char`.
pub fn upper_char_of(c: char) -> (r: char)
    ensures
        r == upper_char(c),
{
    match c {
        'a' => 'A',
        'b' => 'B',
        'c' => 'C',
        'd' => 'D',
        'e' => 'E',
        'f' => 'F',
        'g' => 'G',
        'h' => 'H',
        'i' => 'I',
        'j' => 'J',
        'k' => 'K',
        'l' => 'L',
        'm' => 'M',
        'n' => 'N',
        'o' => 'O',
        'p' => 'P',
        'q' => 'Q',
        'r' => 'R',
        's' => 'S',
        't' => 'T',
        'u' => 'U',
        'v' => 'V',
        'w' => 'W',
        'x' => 'X',
        'y' => 'Y',
        'z' => 'Z',
        _ => c,
    }
}

/// Relies on `String::push`, which appends the given character to the end of
/// the string.
#[verifier::external_body]
fn push_char(s: &mut String, c: char)
    ensures
        final(s)@ == old(s)@.push(c),
{
    s.push(c);
}

/// Character-wise string equality: true exactly when the two views are the
/// same sequence.
pub fn str_eq(a: &str, b: &str) -> (r: bool)
    ensures
        r <==> a@ == b@,
{
    let n = a.unicode_len();
    let m = b.unicode_len();
    if n != m {
        return false;
    }
    let mut i: usize = 0;
    while i < n
        invariant
            i <= n,
            n == a@.len(),
            n == b@.len(),
            forall|j: int| 0 <= j < i ==> a@[j] == b@[j],
        decreases n - i,
    {
        if a.get_char(i) != b.get_char(i) {
            return false;
        }
        i = i + 1;
    }
    proof {
        assert(a@ =~= b@);
    }
    true
}

/// `s` upper-cased character by character.
pub fn ascii_upper(s: &str) -> (r: String)
    ensures
        r@ == upper_of(s@),
{
    let n = s.unicode_len();
    let mut out = String::new();
    let mut i: usize = 0;
    while i < n
        invariant
            i <= n,
            n == s@.len(),
            out@ == upper_of(s@).subrange(0, i as int),
        decreases n - i,
    {
        let c = s.get_char(i);
        let u = upper_char_of(c);
        push_char(&mut out, u);
        proof {
            assert(upper_of(s@).subrange(0, (i + 1) as int) =~= upper_of(s@).subrange(0, i as int)
                .push(upper_char(s@[i as int])));
        }
        i = i + 1;
    }
    proof {
        assert(upper_of(s@).subrange(0, n as int) =~= upper_of(s@));
    }
    out
}

/// Clone an optional string, keeping its contents.
pub fn clone_opt_string(o: &Option<String>) -> (r: Option<String>)
    ensures
        r.deep_view() == o.deep_view(),
{
    match o {
        Some(s) => Some(s.clone()),
        None => None,
    }
}

} // verus!
