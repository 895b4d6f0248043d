//! The capability-gated operation dispatcher.
//!
//! `PackedCmp` is the comparison surface over packed vectors: lanewise
//! minimum, maximum and equality masking. Each implementation consults the
//! static capability registry for the operand's shape; where an accelerated
//! entry is registered and the processor offers the capability, it invokes
//! the accelerated entry point and returns its output verbatim, and
//! otherwise it delegates to the per-lane fallback evaluator. Both paths
//! promise the same lanewise result, so dispatch is unobservable in the
//! output and never a failure: an absent capability only selects the
//! fallback.

use vstd::prelude::*;

use crate::accel::{
    accel_eq_i16x8, accel_eq_i32x4, accel_eq_i8x16, accel_eq_u16x8, accel_eq_u32x4, accel_eq_u8x16,
    accel_eq_u8x32, accel_max_i16x8, accel_max_i32x4, accel_max_i8x16, accel_max_u16x8,
    accel_max_u32x4, accel_max_u8x16, accel_max_u8x32, accel_min_i16x8, accel_min_i32x4,
    accel_min_i8x16, accel_min_u16x8, accel_min_u32x4, accel_min_u8x16, accel_min_u8x32,
};
use crate::caps::{accel_available, CapabilitySet, ElemKind};
use crate::fallback::apply_lanewise;
use crate::lane::Lane;
use crate::ops::{lanewise_result, BinOp};
use crate::packed::Packed;

verus! {

/// Lanewise comparison operations over packed vectors, dispatched between an
/// accelerated and a portable path by the capability set handed in.
///
/// The operands of one call must share a shape; the result has that same
/// shape. `Eq` yields a mask: per lane, the element type's all-bits-set
/// value where the operand lanes are equal and zero where they differ.
pub trait PackedCmp: Sized {
    /// The mathematical lane values of this vector.
    spec fn ints(&self) -> Seq<int>;

    /// The element type's all-bits-set mask value.
    spec fn mask_all_set() -> int;

    /// Return a vector where each element at an index i is the maximum of
    /// the elements at index i in `self` and `other`, in the element type's
    /// own ordering.
    fn max(&self, other: &Self, caps: &CapabilitySet) -> (r: Self)
        requires
            self.ints().len() == other.ints().len(),
        ensures
            r.ints() == lanewise_result(BinOp::Max, Self::mask_all_set(), self.ints(), other.ints()),
    ;

    /// Return a vector where each element at an index i is the minimum of
    /// the elements at index i in `self` and `other`, in the element type's
    /// own ordering.
    fn min(&self, other: &Self, caps: &CapabilitySet) -> (r: Self)
        requires
            self.ints().len() == other.ints().len(),
        ensures
            r.ints() == lanewise_result(BinOp::Min, Self::mask_all_set(), self.ints(), other.ints()),
    ;

    /// Return a vector where each element at an index i is filled with ones
    /// if the elements of `self` and `other` at index i are equal, and
    /// filled with zeroes otherwise.
    fn eq(&self, other: &Self, caps: &CapabilitySet) -> (r: Self)
        requires
            self.ints().len() == other.ints().len(),
        ensures
            r.ints() == lanewise_result(BinOp::Eq, Self::mask_all_set(), self.ints(), other.ints()),
    ;
}

impl PackedCmp for Packed<u8> {
    open spec fn ints(&self) -> Seq<int> {
        self@
    }

    open spec fn mask_all_set() -> int {
        <u8 as Lane>::all_set_int()
    }

    fn max(&self, other: &Self, caps: &CapabilitySet) -> (r: Self) {
        if accel_available(BinOp::Max, ElemKind::U8, self.lane_count(), caps) {
            if self.lane_count() == 16 {
                accel_max_u8x16(self, other)
            } else {
                accel_max_u8x32(self, other)
            }
        } else {
            apply_lanewise(BinOp::Max, self, other)
        }
    }

    fn min(&self, other: &Self, caps: &CapabilitySet) -> (r: Self) {
        if accel_available(BinOp::Min, ElemKind::U8, self.lane_count(), caps) {
            if self.lane_count() == 16 {
                accel_min_u8x16(self, other)
            } else {
                accel_min_u8x32(self, other)
            }
        } else {
            apply_lanewise(BinOp::Min, self, other)
        }
    }

    fn eq(&self, other: &Self, caps: &CapabilitySet) -> (r: Self) {
        if accel_available(BinOp::Eq, ElemKind::U8, self.lane_count(), caps) {
            if self.lane_count() == 16 {
                accel_eq_u8x16(self, other)
            } else {
                accel_eq_u8x32(self, other)
            }
        } else {
            apply_lanewise(BinOp::Eq, self, other)
        }
    }
}

impl PackedCmp for Packed<i8> {
    open spec fn ints(&self) -> Seq<int> {
        self@
    }

    open spec fn mask_all_set() -> int {
        <i8 as Lane>::all_set_int()
    }

    fn max(&self, other: &Self, caps: &CapabilitySet) -> (r: Self) {
        if accel_available(BinOp::Max, ElemKind::I8, self.lane_count(), caps) {
            accel_max_i8x16(self, other)
        } else {
            apply_lanewise(BinOp::Max, self, other)
        }
    }

    fn min(&self, other: &Self, caps: &CapabilitySet) -> (r: Self) {
        if accel_available(BinOp::Min, ElemKind::I8, self.lane_count(), caps) {
            accel_min_i8x16(self, other)
        } else {
            apply_lanewise(BinOp::Min, self, other)
        }
    }

    fn eq(&self, other: &Self, caps: &CapabilitySet) -> (r: Self) {
        if accel_available(BinOp::Eq, ElemKind::I8, self.lane_count(), caps) {
            accel_eq_i8x16(self, other)
        } else {
            apply_lanewise(BinOp::Eq, self, other)
        }
    }
}

impl PackedCmp for Packed<u16> {
    open spec fn ints(&self) -> Seq<int> {
        self@
    }

    open spec fn mask_all_set() -> int {
        <u16 as Lane>::all_set_int()
    }

    fn max(&self, other: &Self, caps: &CapabilitySet) -> (r: Self) {
        if accel_available(BinOp::Max, ElemKind::U16, self.lane_count(), caps) {
            accel_max_u16x8(self, other)
        } else {
            apply_lanewise(BinOp::Max, self, other)
        }
    }

    fn min(&self, other: &Self, caps: &CapabilitySet) -> (r: Self) {
        if accel_available(BinOp::Min, ElemKind::U16, self.lane_count(), caps) {
            accel_min_u16x8(self, other)
        } else {
            apply_lanewise(BinOp::Min, self, other)
        }
    }

    fn eq(&self, other: &Self, caps: &CapabilitySet) -> (r: Self) {
        if accel_available(BinOp::Eq, ElemKind::U16, self.lane_count(), caps) {
            accel_eq_u16x8(self, other)
        } else {
            apply_lanewise(BinOp::Eq, self, other)
        }
    }
}

impl PackedCmp for Packed<i16> {
    open spec fn ints(&self) -> Seq<int> {
        self@
    }

    open spec fn mask_all_set() -> int {
        <i16 as Lane>::all_set_int()
    }

    fn max(&self, other: &Self, caps: &CapabilitySet) -> (r: Self) {
        if accel_available(BinOp::Max, ElemKind::I16, self.lane_count(), caps) {
            accel_max_i16x8(self, other)
        } else {
            apply_lanewise(BinOp::Max, self, other)
        }
    }

    fn min(&self, other: &Self, caps: &CapabilitySet) -> (r: Self) {
        if accel_available(BinOp::Min, ElemKind::I16, self.lane_count(), caps) {
            accel_min_i16x8(self, other)
        } else {
            apply_lanewise(BinOp::Min, self, other)
        }
    }

    fn eq(&self, other: &Self, caps: &CapabilitySet) -> (r: Self) {
        if accel_available(BinOp::Eq, ElemKind::I16, self.lane_count(), caps) {
            accel_eq_i16x8(self, other)
        } else {
            apply_lanewise(BinOp::Eq, self, other)
        }
    }
}

impl PackedCmp for Packed<u32> {
    open spec fn ints(&self) -> Seq<int> {
        self@
    }

    open spec fn mask_all_set() -> int {
        <u32 as Lane>::all_set_int()
    }

    fn max(&self, other: &Self, caps: &CapabilitySet) -> (r: Self) {
        if accel_available(BinOp::Max, ElemKind::U32, self.lane_count(), caps) {
            accel_max_u32x4(self, other)
        } else {
            apply_lanewise(BinOp::Max, self, other)
        }
    }

    fn min(&self, other: &Self, caps: &CapabilitySet) -> (r: Self) {
        if accel_available(BinOp::Min, ElemKind::U32, self.lane_count(), caps) {
            accel_min_u32x4(self, other)
        } else {
            apply_lanewise(BinOp::Min, self, other)
        }
    }

    fn eq(&self, other: &Self, caps: &CapabilitySet) -> (r: Self) {
        if accel_available(BinOp::Eq, ElemKind::U32, self.lane_count(), caps) {
            accel_eq_u32x4(self, other)
        } else {
            apply_lanewise(BinOp::Eq, self, other)
        }
    }
}

impl PackedCmp for Packed<i32> {
    open spec fn ints(&self) -> Seq<int> {
        self@
    }

    open spec fn mask_all_set() -> int {
        <i32 as Lane>::all_set_int()
    }

    fn max(&self, other: &Self, caps: &CapabilitySet) -> (r: Self) {
        if accel_available(BinOp::Max, ElemKind::I32, self.lane_count(), caps) {
            accel_max_i32x4(self, other)
        } else {
            apply_lanewise(BinOp::Max, self, other)
        }
    }

    fn min(&self, other: &Self, caps: &CapabilitySet) -> (r: Self) {
        if accel_available(BinOp::Min, ElemKind::I32, self.lane_count(), caps) {
            accel_min_i32x4(self, other)
        } else {
            apply_lanewise(BinOp::Min, self, other)
        }
    }

    fn eq(&self, other: &Self, caps: &CapabilitySet) -> (r: Self) {
        if accel_available(BinOp::Eq, ElemKind::I32, self.lane_count(), caps) {
            accel_eq_i32x4(self, other)
        } else {
            apply_lanewise(BinOp::Eq, self, other)
        }
    }
}

impl PackedCmp for Packed<u64> {
    open spec fn ints(&self) -> Seq<int> {
        self@
    }

    open spec fn mask_all_set() -> int {
        <u64 as Lane>::all_set_int()
    }

    // The registry holds no accelerated comparison for 64-bit integer
    // shapes, so the fallback is statically the only path.
    fn max(&self, other: &Self, caps: &CapabilitySet) -> (r: Self) {
        apply_lanewise(BinOp::Max, self, other)
    }

    fn min(&self, other: &Self, caps: &CapabilitySet) -> (r: Self) {
        apply_lanewise(BinOp::Min, self, other)
    }

    fn eq(&self, other: &Self, caps: &CapabilitySet) -> (r: Self) {
        apply_lanewise(BinOp::Eq, self, other)
    }
}

impl PackedCmp for Packed<i64> {
    open spec fn ints(&self) -> Seq<int> {
        self@
    }

    open spec fn mask_all_set() -> int {
        <i64 as Lane>::all_set_int()
    }

    // The registry holds no accelerated comparison for 64-bit integer
    // shapes, so the fallback is statically the only path.
    fn max(&self, other: &Self, caps: &CapabilitySet) -> (r: Self) {
        apply_lanewise(BinOp::Max, self, other)
    }

    fn min(&self, other: &Self, caps: &CapabilitySet) -> (r: Self) {
        apply_lanewise(BinOp::Min, self, other)
    }

    fn eq(&self, other: &Self, caps: &CapabilitySet) -> (r: Self) {
        apply_lanewise(BinOp::Eq, self, other)
    }
}

} // verus!
