//! IEEE-754 binary32 arithmetic on raw bit patterns.
//!
//! The crate stores every sample and weight as the `u32` bit pattern of
//! a binary32 value.  The operations below are carried out in software
//! by `rustc_apfloat`, whose `IeeeFloat` arithmetic implements IEEE-754
//! with round-to-nearest, ties-to-even — the same rounding hardware
//! `f32` arithmetic uses.  Each operation's result is named by an
//! uninterpreted spec function of the operand bit patterns, so every
//! value computed by this crate is pinned down as a composition of
//! these named operations.

use vstd::prelude::*;

use rustc_apfloat::ieee::Single;
use rustc_apfloat::Float;

verus! {

/// The bit pattern of the binary32 sum `a + b` (round to nearest even).
pub uninterp spec fn add_bits(a: u32, b: u32) -> u32;

/// The bit pattern of the binary32 difference `a - b` (round to nearest even).
pub uninterp spec fn sub_bits(a: u32, b: u32) -> u32;

/// The bit pattern of the binary32 product `a * b` (round to nearest even).
pub uninterp spec fn mul_bits(a: u32, b: u32) -> u32;

/// The bit pattern of the binary32 quotient `a / b` (round to nearest even).
pub uninterp spec fn div_bits(a: u32, b: u32) -> u32;

/// Whether the binary32 value with bit pattern `a` compares less than
/// the one with bit pattern `b` (IEEE comparison; false when either is NaN).
pub uninterp spec fn lt_bits(a: u32, b: u32) -> bool;

/// Whether the binary32 values with bit patterns `a` and `b` compare
/// equal (IEEE comparison: both zeros are equal, NaN equals nothing).
pub uninterp spec fn eq_bits(a: u32, b: u32) -> bool;

/// The bit pattern of the binary32 value nearest to the integer `i`
/// (round to nearest even).
pub uninterp spec fn f32_of_int(i: int) -> u32;

/// Relies on `rustc_apfloat`'s `Add` for `IeeeFloat`: correctly rounded
/// IEEE-754 binary32 addition, a function of the two bit patterns alone.
#[verifier::external_body]
pub(crate) fn f32_add(a: u32, b: u32) -> (r: u32)
    ensures
        r == add_bits(a, b),
{
    (Single::from_bits(a as u128) + Single::from_bits(b as u128)).value.to_bits() as u32
}

/// Relies on `rustc_apfloat`'s `Sub` for `IeeeFloat`: correctly rounded
/// IEEE-754 binary32 subtraction, a function of the two bit patterns alone.
#[verifier::external_body]
pub(crate) fn f32_sub(a: u32, b: u32) -> (r: u32)
    ensures
        r == sub_bits(a, b),
{
    (Single::from_bits(a as u128) - Single::from_bits(b as u128)).value.to_bits() as u32
}

/// Relies on `rustc_apfloat`'s `Mul` for `IeeeFloat`: correctly rounded
/// IEEE-754 binary32 multiplication, a function of the two bit patterns alone.
#[verifier::external_body]
pub(crate) fn f32_mul(a: u32, b: u32) -> (r: u32)
    ensures
        r == mul_bits(a, b),
{
    (Single::from_bits(a as u128) * Single::from_bits(b as u128)).value.to_bits() as u32
}

/// Relies on `rustc_apfloat`'s `Div` for `IeeeFloat`: correctly rounded
/// IEEE-754 binary32 division, a function of the two bit patterns alone.
#[verifier::external_body]
pub(crate) fn f32_div(a: u32, b: u32) -> (r: u32)
    ensures
        r == div_bits(a, b),
{
    (Single::from_bits(a as u128) / Single::from_bits(b as u128)).value.to_bits() as u32
}

/// Relies on `rustc_apfloat`'s `PartialOrd` for `IeeeFloat`: IEEE-754
/// ordered comparison, a function of the two bit patterns alone.
#[verifier::external_body]
pub(crate) fn f32_lt(a: u32, b: u32) -> (r: bool)
    ensures
        r == lt_bits(a, b),
{
    Single::from_bits(a as u128) < Single::from_bits(b as u128)
}

/// Relies on `rustc_apfloat`'s `PartialEq` for `IeeeFloat`: IEEE-754
/// equality, a function of the two bit patterns alone.
#[verifier::external_body]
pub(crate) fn f32_eq(a: u32, b: u32) -> (r: bool)
    ensures
        r == eq_bits(a, b),
{
    Single::from_bits(a as u128) == Single::from_bits(b as u128)
}

/// Relies on `rustc_apfloat`'s `Float::from_i128`: conversion of an
/// integer to the nearest binary32 value, a function of the integer alone.
#[verifier::external_body]
pub(crate) fn f32_from_i64(i: i64) -> (r: u32)
    ensures
        r == f32_of_int(i as int),
{
    Single::from_i128(i as i128).value.to_bits() as u32
}

} // verus!
