//! The numeric kinds that cross the engine boundary, and what it means for
//! a string argument to parse as one of them.

use vstd::prelude::*;
use crate::numtext::spec_parse_i32;
use crate::numtext::spec_parse_i64;

verus! {

/// Declared kind of one function parameter. Exactly four numeric kinds are
/// supported; everything else a module may declare is `Unsupported`.
#[derive(Clone, Copy, PartialEq, Eq, Structural, Debug)]
pub enum ParamKind {
    I32,
    I64,
    F32,
    F64,
    Unsupported,
}

/// A value passed to or returned from a module call. Floating-point values
/// are carried as their IEEE 754 bit patterns.
#[derive(Clone, Copy, PartialEq, Eq, Structural, Debug)]
pub enum ArgumentValue {
    I32(i32),
    I64(i64),
    F32Bits(u32),
    F64Bits(u64),
}

/// Whether the 32-bit float grammar accepts the string; decided by the
/// host's float parser behind a trusted boundary.
pub uninterp spec fn f32_str_parses(s: Seq<char>) -> bool;

/// Whether the 64-bit float grammar accepts the string.
pub uninterp spec fn f64_str_parses(s: Seq<char>) -> bool;

/// The bit pattern of the 32-bit float a string parses as; a function of
/// the characters alone, meaningful where `f32_str_parses` holds.
pub uninterp spec fn f32_bits_of(s: Seq<char>) -> u32;

/// The bit pattern of the 64-bit float a string parses as; a function of
/// the characters alone, meaningful where `f64_str_parses` holds.
pub uninterp spec fn f64_bits_of(s: Seq<char>) -> u64;

/// Whether a string argument converts into the declared kind of its
/// parameter position.
pub open spec fn arg_parses(s: Seq<char>, k: ParamKind) -> bool {
    match k {
        ParamKind::I32 => spec_parse_i32(s) is Some,
        ParamKind::I64 => spec_parse_i64(s) is Some,
        ParamKind::F32 => f32_str_parses(s),
        ParamKind::F64 => f64_str_parses(s),
        ParamKind::Unsupported => false,
    }
}

/// The value a string argument converts into for a declared kind;
/// meaningful only where `arg_parses` holds of the same pair.
pub open spec fn spec_coerced(s: Seq<char>, k: ParamKind) -> ArgumentValue {
    match k {
        ParamKind::I32 => ArgumentValue::I32(spec_parse_i32(s).unwrap()),
        ParamKind::I64 => ArgumentValue::I64(spec_parse_i64(s).unwrap()),
        ParamKind::F32 => ArgumentValue::F32Bits(f32_bits_of(s)),
        ParamKind::F64 => ArgumentValue::F64Bits(f64_bits_of(s)),
        ParamKind::Unsupported => ArgumentValue::I32(0),
    }
}

} // verus!
