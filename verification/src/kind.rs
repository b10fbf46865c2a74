//! The closed set of scalar kinds a field may have, and the numeric range
//! that belongs to each integer width.

use vstd::prelude::*;

verus! {

/// Width of an integer kind: the four fixed power-of-two widths plus the
/// platform-dependent pointer width.
#[derive(Clone, Copy, Debug, PartialEq, Eq, Structural)]
pub enum IntWidth {
    W8,
    W16,
    W32,
    W64,
    W128,
    WSize,
}

/// The scalar kinds the resolver knows how to parse.
#[derive(Clone, Copy, Debug, PartialEq, Eq, Structural)]
pub enum ScalarKind {
    /// Plain text: the environment string itself, unparsed.
    Text,
    /// A signed integer of the given width.
    Signed(IntWidth),
    /// An unsigned integer of the given width.
    Unsigned(IntWidth),
    /// A boolean, written `true` or `false` in any letter case.
    Boolean,
}

/// Largest value of an unsigned integer of width `w`.
pub open spec fn max_unsigned(w: IntWidth) -> int {
    match w {
        IntWidth::W8 => u8::MAX as int,
        IntWidth::W16 => u16::MAX as int,
        IntWidth::W32 => u32::MAX as int,
        IntWidth::W64 => u64::MAX as int,
        IntWidth::W128 => u128::MAX as int,
        IntWidth::WSize => usize::MAX as int,
    }
}

/// Largest value of a signed integer of width `w`.
pub open spec fn max_signed(w: IntWidth) -> int {
    match w {
        IntWidth::W8 => i8::MAX as int,
        IntWidth::W16 => i16::MAX as int,
        IntWidth::W32 => i32::MAX as int,
        IntWidth::W64 => i64::MAX as int,
        IntWidth::W128 => i128::MAX as int,
        IntWidth::WSize => isize::MAX as int,
    }
}

/// Smallest value of a signed integer of width `w`.
pub open spec fn min_signed(w: IntWidth) -> int {
    match w {
        IntWidth::W8 => i8::MIN as int,
        IntWidth::W16 => i16::MIN as int,
        IntWidth::W32 => i32::MIN as int,
        IntWidth::W64 => i64::MIN as int,
        IntWidth::W128 => i128::MIN as int,
        IntWidth::WSize => isize::MIN as int,
    }
}

/// Executable table of `max_unsigned`, as a `u128` (every width fits).
pub fn max_unsigned_u128(w: IntWidth) -> (m: u128)
    ensures
        m as int == max_unsigned(w),
{
    match w {
        IntWidth::W8 => u8::MAX as u128,
        IntWidth::W16 => u16::MAX as u128,
        IntWidth::W32 => u32::MAX as u128,
        IntWidth::W64 => u64::MAX as u128,
        IntWidth::W128 => u128::MAX,
        IntWidth::WSize => usize::MAX as u128,
    }
}

/// Executable table of `max_signed`, as a `u128`.
pub fn max_signed_u128(w: IntWidth) -> (m: u128)
    ensures
        m as int == max_signed(w),
{
    match w {
        IntWidth::W8 => i8::MAX as u128,
        IntWidth::W16 => i16::MAX as u128,
        IntWidth::W32 => i32::MAX as u128,
        IntWidth::W64 => i64::MAX as u128,
        IntWidth::W128 => i128::MAX as u128,
        IntWidth::WSize => isize::MAX as u128,
    }
}

/// Executable table of the magnitude of `min_signed`, as a `u128`.
pub fn min_signed_magnitude_u128(w: IntWidth) -> (m: u128)
    ensures
        m as int == -min_signed(w),
{
    match w {
        IntWidth::W8 => 128u128,
        IntWidth::W16 => 32768u128,
        IntWidth::W32 => 2147483648u128,
        IntWidth::W64 => 9223372036854775808u128,
        IntWidth::W128 => 170141183460469231731687303715884105728u128,
        IntWidth::WSize => (isize::MAX as u128) + 1,
    }
}

/// The name of each kind, as a field author writes it.
pub open spec fn kind_label(k: ScalarKind) -> Seq<char> {
    match k {
        ScalarKind::Text => "String"@,
        ScalarKind::Boolean => "bool"@,
        ScalarKind::Signed(w) => match w {
            IntWidth::W8 => "i8"@,
            IntWidth::W16 => "i16"@,
            IntWidth::W32 => "i32"@,
            IntWidth::W64 => "i64"@,
            IntWidth::W128 => "i128"@,
            IntWidth::WSize => "isize"@,
        },
        ScalarKind::Unsigned(w) => match w {
            IntWidth::W8 => "u8"@,
            IntWidth::W16 => "u16"@,
            IntWidth::W32 => "u32"@,
            IntWidth::W64 => "u64"@,
            IntWidth::W128 => "u128"@,
            IntWidth::WSize => "usize"@,
        },
    }
}

impl ScalarKind {
    /// The kind's name, for messages.
    pub fn label(&self) -> (r: &'static str)
        ensures
            r@ == kind_label(*self),
    {
        match self {
            ScalarKind::Text => "String",
            ScalarKind::Boolean => "bool",
            ScalarKind::Signed(w) => match w {
                IntWidth::W8 => "i8",
                IntWidth::W16 => "i16",
                IntWidth::W32 => "i32",
                IntWidth::W64 => "i64",
                IntWidth::W128 => "i128",
                IntWidth::WSize => "isize",
            },
            ScalarKind::Unsigned(w) => match w {
                IntWidth::W8 => "u8",
                IntWidth::W16 => "u16",
                IntWidth::W32 => "u32",
                IntWidth::W64 => "u64",
                IntWidth::W128 => "u128",
                IntWidth::WSize => "usize",
            },
        }
    }
}

} // verus!
