//! The accelerated operation entry points.
//!
//! Each function wraps one packed-vector operation of the `wide` crate,
//! which executes it as a single hardware vector instruction where the
//! compile target offers the instruction. Each wrapper's contract states the
//! same lanewise reference semantics that the fallback evaluator is verified
//! against, so the two paths of one `(operation, shape)` pair agree on every
//! input. The dispatcher calls a wrapper only for operands of exactly the
//! accelerated width, so the array conversions in the bodies cannot fail.

use vstd::prelude::*;

use crate::lane::Lane;
use crate::ops::{lanewise_result, BinOp};
use crate::packed::Packed;

verus! {

/// Relies on `wide::u8x16::min`: the lanewise unsigned 8-bit minimum.
#[verifier::external_body]
pub(crate) fn accel_min_u8x16(a: &Packed<u8>, b: &Packed<u8>) -> (r: Packed<u8>)
    requires
        a@.len() == 16,
        b@.len() == 16,
    ensures
        r@ == lanewise_result(BinOp::Min, <u8 as Lane>::all_set_int(), a@, b@),
{
    let xa: [u8; 16] = a.lanes.as_slice().try_into().unwrap();
    let xb: [u8; 16] = b.lanes.as_slice().try_into().unwrap();
    Packed { lanes: wide::u8x16::new(xa).min(wide::u8x16::new(xb)).to_array().to_vec() }
}

/// Relies on `wide::u8x16::max`: the lanewise unsigned 8-bit maximum.
#[verifier::external_body]
pub(crate) fn accel_max_u8x16(a: &Packed<u8>, b: &Packed<u8>) -> (r: Packed<u8>)
    requires
        a@.len() == 16,
        b@.len() == 16,
    ensures
        r@ == lanewise_result(BinOp::Max, <u8 as Lane>::all_set_int(), a@, b@),
{
    let xa: [u8; 16] = a.lanes.as_slice().try_into().unwrap();
    let xb: [u8; 16] = b.lanes.as_slice().try_into().unwrap();
    Packed { lanes: wide::u8x16::new(xa).max(wide::u8x16::new(xb)).to_array().to_vec() }
}

/// Relies on `wide::u8x16::simd_eq`: per lane, 255 where the operands are
/// equal and 0 where they differ.
#[verifier::external_body]
pub(crate) fn accel_eq_u8x16(a: &Packed<u8>, b: &Packed<u8>) -> (r: Packed<u8>)
    requires
        a@.len() == 16,
        b@.len() == 16,
    ensures
        r@ == lanewise_result(BinOp::Eq, <u8 as Lane>::all_set_int(), a@, b@),
{
    let xa: [u8; 16] = a.lanes.as_slice().try_into().unwrap();
    let xb: [u8; 16] = b.lanes.as_slice().try_into().unwrap();
    Packed { lanes: wide::u8x16::new(xa).simd_eq(wide::u8x16::new(xb)).to_array().to_vec() }
}

/// Relies on `wide::u8x32::min`: the lanewise unsigned 8-bit minimum at
/// 256-bit width.
#[verifier::external_body]
pub(crate) fn accel_min_u8x32(a: &Packed<u8>, b: &Packed<u8>) -> (r: Packed<u8>)
    requires
        a@.len() == 32,
        b@.len() == 32,
    ensures
        r@ == lanewise_result(BinOp::Min, <u8 as Lane>::all_set_int(), a@, b@),
{
    let xa: [u8; 32] = a.lanes.as_slice().try_into().unwrap();
    let xb: [u8; 32] = b.lanes.as_slice().try_into().unwrap();
    Packed { lanes: wide::u8x32::new(xa).min(wide::u8x32::new(xb)).to_array().to_vec() }
}

/// Relies on `wide::u8x32::max`: the lanewise unsigned 8-bit maximum at
/// 256-bit width.
#[verifier::external_body]
pub(crate) fn accel_max_u8x32(a: &Packed<u8>, b: &Packed<u8>) -> (r: Packed<u8>)
    requires
        a@.len() == 32,
        b@.len() == 32,
    ensures
        r@ == lanewise_result(BinOp::Max, <u8 as Lane>::all_set_int(), a@, b@),
{
    let xa: [u8; 32] = a.lanes.as_slice().try_into().unwrap();
    let xb: [u8; 32] = b.lanes.as_slice().try_into().unwrap();
    Packed { lanes: wide::u8x32::new(xa).max(wide::u8x32::new(xb)).to_array().to_vec() }
}

/// Relies on `wide::u8x32::simd_eq`: per lane, 255 where the operands are
/// equal and 0 where they differ, at 256-bit width.
#[verifier::external_body]
pub(crate) fn accel_eq_u8x32(a: &Packed<u8>, b: &Packed<u8>) -> (r: Packed<u8>)
    requires
        a@.len() == 32,
        b@.len() == 32,
    ensures
        r@ == lanewise_result(BinOp::Eq, <u8 as Lane>::all_set_int(), a@, b@),
{
    let xa: [u8; 32] = a.lanes.as_slice().try_into().unwrap();
    let xb: [u8; 32] = b.lanes.as_slice().try_into().unwrap();
    Packed { lanes: wide::u8x32::new(xa).simd_eq(wide::u8x32::new(xb)).to_array().to_vec() }
}

/// Relies on `wide::i8x16::min`: the lanewise signed 8-bit minimum.
#[verifier::external_body]
pub(crate) fn accel_min_i8x16(a: &Packed<i8>, b: &Packed<i8>) -> (r: Packed<i8>)
    requires
        a@.len() == 16,
        b@.len() == 16,
    ensures
        r@ == lanewise_result(BinOp::Min, <i8 as Lane>::all_set_int(), a@, b@),
{
    let xa: [i8; 16] = a.lanes.as_slice().try_into().unwrap();
    let xb: [i8; 16] = b.lanes.as_slice().try_into().unwrap();
    Packed { lanes: wide::i8x16::new(xa).min(wide::i8x16::new(xb)).to_array().to_vec() }
}

/// Relies on `wide::i8x16::max`: the lanewise signed 8-bit maximum.
#[verifier::external_body]
pub(crate) fn accel_max_i8x16(a: &Packed<i8>, b: &Packed<i8>) -> (r: Packed<i8>)
    requires
        a@.len() == 16,
        b@.len() == 16,
    ensures
        r@ == lanewise_result(BinOp::Max, <i8 as Lane>::all_set_int(), a@, b@),
{
    let xa: [i8; 16] = a.lanes.as_slice().try_into().unwrap();
    let xb: [i8; 16] = b.lanes.as_slice().try_into().unwrap();
    Packed { lanes: wide::i8x16::new(xa).max(wide::i8x16::new(xb)).to_array().to_vec() }
}

/// Relies on `wide::i8x16::simd_eq`: per lane, -1 (all bits set) where the
/// operands are equal and 0 where they differ.
#[verifier::external_body]
pub(crate) fn accel_eq_i8x16(a: &Packed<i8>, b: &Packed<i8>) -> (r: Packed<i8>)
    requires
        a@.len() == 16,
        b@.len() == 16,
    ensures
        r@ == lanewise_result(BinOp::Eq, <i8 as Lane>::all_set_int(), a@, b@),
{
    let xa: [i8; 16] = a.lanes.as_slice().try_into().unwrap();
    let xb: [i8; 16] = b.lanes.as_slice().try_into().unwrap();
    Packed { lanes: wide::i8x16::new(xa).simd_eq(wide::i8x16::new(xb)).to_array().to_vec() }
}

/// Relies on `wide::u16x8::min`: the lanewise unsigned 16-bit minimum.
#[verifier::external_body]
pub(crate) fn accel_min_u16x8(a: &Packed<u16>, b: &Packed<u16>) -> (r: Packed<u16>)
    requires
        a@.len() == 8,
        b@.len() == 8,
    ensures
        r@ == lanewise_result(BinOp::Min, <u16 as Lane>::all_set_int(), a@, b@),
{
    let xa: [u16; 8] = a.lanes.as_slice().try_into().unwrap();
    let xb: [u16; 8] = b.lanes.as_slice().try_into().unwrap();
    Packed { lanes: wide::u16x8::new(xa).min(wide::u16x8::new(xb)).to_array().to_vec() }
}

/// Relies on `wide::u16x8::max`: the lanewise unsigned 16-bit maximum.
#[verifier::external_body]
pub(crate) fn accel_max_u16x8(a: &Packed<u16>, b: &Packed<u16>) -> (r: Packed<u16>)
    requires
        a@.len() == 8,
        b@.len() == 8,
    ensures
        r@ == lanewise_result(BinOp::Max, <u16 as Lane>::all_set_int(), a@, b@),
{
    let xa: [u16; 8] = a.lanes.as_slice().try_into().unwrap();
    let xb: [u16; 8] = b.lanes.as_slice().try_into().unwrap();
    Packed { lanes: wide::u16x8::new(xa).max(wide::u16x8::new(xb)).to_array().to_vec() }
}

/// Relies on `wide::u16x8::simd_eq`: per lane, 65535 where the operands are
/// equal and 0 where they differ.
#[verifier::external_body]
pub(crate) fn accel_eq_u16x8(a: &Packed<u16>, b: &Packed<u16>) -> (r: Packed<u16>)
    requires
        a@.len() == 8,
        b@.len() == 8,
    ensures
        r@ == lanewise_result(BinOp::Eq, <u16 as Lane>::all_set_int(), a@, b@),
{
    let xa: [u16; 8] = a.lanes.as_slice().try_into().unwrap();
    let xb: [u16; 8] = b.lanes.as_slice().try_into().unwrap();
    Packed { lanes: wide::u16x8::new(xa).simd_eq(wide::u16x8::new(xb)).to_array().to_vec() }
}

/// Relies on `wide::i16x8::min`: the lanewise signed 16-bit minimum.
#[verifier::external_body]
pub(crate) fn accel_min_i16x8(a: &Packed<i16>, b: &Packed<i16>) -> (r: Packed<i16>)
    requires
        a@.len() == 8,
        b@.len() == 8,
    ensures
        r@ == lanewise_result(BinOp::Min, <i16 as Lane>::all_set_int(), a@, b@),
{
    let xa: [i16; 8] = a.lanes.as_slice().try_into().unwrap();
    let xb: [i16; 8] = b.lanes.as_slice().try_into().unwrap();
    Packed { lanes: wide::i16x8::new(xa).min(wide::i16x8::new(xb)).to_array().to_vec() }
}

/// Relies on `wide::i16x8::max`: the lanewise signed 16-bit maximum.
#[verifier::external_body]
pub(crate) fn accel_max_i16x8(a: &Packed<i16>, b: &Packed<i16>) -> (r: Packed<i16>)
    requires
        a@.len() == 8,
        b@.len() == 8,
    ensures
        r@ == lanewise_result(BinOp::Max, <i16 as Lane>::all_set_int(), a@, b@),
{
    let xa: [i16; 8] = a.lanes.as_slice().try_into().unwrap();
    let xb: [i16; 8] = b.lanes.as_slice().try_into().unwrap();
    Packed { lanes: wide::i16x8::new(xa).max(wide::i16x8::new(xb)).to_array().to_vec() }
}

/// Relies on `wide::i16x8::simd_eq`: per lane, -1 (all bits set) where the
/// operands are equal and 0 where they differ.
#[verifier::external_body]
pub(crate) fn accel_eq_i16x8(a: &Packed<i16>, b: &Packed<i16>) -> (r: Packed<i16>)
    requires
        a@.len() == 8,
        b@.len() == 8,
    ensures
        r@ == lanewise_result(BinOp::Eq, <i16 as Lane>::all_set_int(), a@, b@),
{
    let xa: [i16; 8] = a.lanes.as_slice().try_into().unwrap();
    let xb: [i16; 8] = b.lanes.as_slice().try_into().unwrap();
    Packed { lanes: wide::i16x8::new(xa).simd_eq(wide::i16x8::new(xb)).to_array().to_vec() }
}

/// Relies on `wide::u32x4::min`: the lanewise unsigned 32-bit minimum.
#[verifier::external_body]
pub(crate) fn accel_min_u32x4(a: &Packed<u32>, b: &Packed<u32>) -> (r: Packed<u32>)
    requires
        a@.len() == 4,
        b@.len() == 4,
    ensures
        r@ == lanewise_result(BinOp::Min, <u32 as Lane>::all_set_int(), a@, b@),
{
    let xa: [u32; 4] = a.lanes.as_slice().try_into().unwrap();
    let xb: [u32; 4] = b.lanes.as_slice().try_into().unwrap();
    Packed { lanes: wide::u32x4::new(xa).min(wide::u32x4::new(xb)).to_array().to_vec() }
}

/// Relies on `wide::u32x4::max`: the lanewise unsigned 32-bit maximum.
#[verifier::external_body]
pub(crate) fn accel_max_u32x4(a: &Packed<u32>, b: &Packed<u32>) -> (r: Packed<u32>)
    requires
        a@.len() == 4,
        b@.len() == 4,
    ensures
        r@ == lanewise_result(BinOp::Max, <u32 as Lane>::all_set_int(), a@, b@),
{
    let xa: [u32; 4] = a.lanes.as_slice().try_into().unwrap();
    let xb: [u32; 4] = b.lanes.as_slice().try_into().unwrap();
    Packed { lanes: wide::u32x4::new(xa).max(wide::u32x4::new(xb)).to_array().to_vec() }
}

/// Relies on `wide::u32x4::simd_eq`: per lane, 4294967295 where the operands
/// are equal and 0 where they differ.
#[verifier::external_body]
pub(crate) fn accel_eq_u32x4(a: &Packed<u32>, b: &Packed<u32>) -> (r: Packed<u32>)
    requires
        a@.len() == 4,
        b@.len() == 4,
    ensures
        r@ == lanewise_result(BinOp::Eq, <u32 as Lane>::all_set_int(), a@, b@),
{
    let xa: [u32; 4] = a.lanes.as_slice().try_into().unwrap();
    let xb: [u32; 4] = b.lanes.as_slice().try_into().unwrap();
    Packed { lanes: wide::u32x4::new(xa).simd_eq(wide::u32x4::new(xb)).to_array().to_vec() }
}

/// Relies on `wide::i32x4::min`: the lanewise signed 32-bit minimum.
#[verifier::external_body]
pub(crate) fn accel_min_i32x4(a: &Packed<i32>, b: &Packed<i32>) -> (r: Packed<i32>)
    requires
        a@.len() == 4,
        b@.len() == 4,
    ensures
        r@ == lanewise_result(BinOp::Min, <i32 as Lane>::all_set_int(), a@, b@),
{
    let xa: [i32; 4] = a.lanes.as_slice().try_into().unwrap();
    let xb: [i32; 4] = b.lanes.as_slice().try_into().unwrap();
    Packed { lanes: wide::i32x4::new(xa).min(wide::i32x4::new(xb)).to_array().to_vec() }
}

/// Relies on `wide::i32x4::max`: the lanewise signed 32-bit maximum.
#[verifier::external_body]
pub(crate) fn accel_max_i32x4(a: &Packed<i32>, b: &Packed<i32>) -> (r: Packed<i32>)
    requires
        a@.len() == 4,
        b@.len() == 4,
    ensures
        r@ == lanewise_result(BinOp::Max, <i32 as Lane>::all_set_int(), a@, b@),
{
    let xa: [i32; 4] = a.lanes.as_slice().try_into().unwrap();
    let xb: [i32; 4] = b.lanes.as_slice().try_into().unwrap();
    Packed { lanes: wide::i32x4::new(xa).max(wide::i32x4::new(xb)).to_array().to_vec() }
}

/// Relies on `wide::i32x4::simd_eq`: per lane, -1 (all bits set) where the
/// operands are equal and 0 where they differ.
#[verifier::external_body]
pub(crate) fn accel_eq_i32x4(a: &Packed<i32>, b: &Packed<i32>) -> (r: Packed<i32>)
    requires
        a@.len() == 4,
        b@.len() == 4,
    ensures
        r@ == lanewise_result(BinOp::Eq, <i32 as Lane>::all_set_int(), a@, b@),
{
    let xa: [i32; 4] = a.lanes.as_slice().try_into().unwrap();
    let xb: [i32; 4] = b.lanes.as_slice().try_into().unwrap();
    Packed { lanes: wide::i32x4::new(xa).simd_eq(wide::i32x4::new(xb)).to_array().to_vec() }
}

} // verus!
