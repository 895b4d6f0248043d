//! Scalar lane semantics, one impl per supported element type.
//!
//! A lane value is modeled by its mathematical integer value, so the
//! element type's own ordering — unsigned comparison for unsigned types,
//! two's-complement signed comparison for signed types — is exactly integer
//! ordering on the model, and signed and unsigned variants of one width
//! cannot be confused.

use vstd::prelude::*;

use crate::ops::{lane_result, BinOp};

verus! {

/// One element type of a vector shape: its mathematical lane value, its
/// all-bits-set mask value, and the verified scalar reference operations the
/// per-lane fallback path applies.
pub trait Lane: Copy + Sized {
    /// The mathematical value of this lane.
    spec fn lane_int(self) -> int;

    /// The element type's all-bits-set value: the "true" mask produced by an
    /// equality compare (255 for an unsigned 8-bit lane, -1 for any signed
    /// lane, and so on).
    spec fn all_set_int() -> int;

    /// The scalar minimum in the element type's own ordering.
    fn lane_min(self, other: Self) -> (r: Self)
        ensures
            r.lane_int() == lane_result(BinOp::Min, Self::all_set_int(), self.lane_int(), other.lane_int()),
    ;

    /// The scalar maximum in the element type's own ordering.
    fn lane_max(self, other: Self) -> (r: Self)
        ensures
            r.lane_int() == lane_result(BinOp::Max, Self::all_set_int(), self.lane_int(), other.lane_int()),
    ;

    /// The scalar equality mask: all bits set where equal, zero where not.
    fn lane_eq_mask(self, other: Self) -> (r: Self)
        ensures
            r.lane_int() == lane_result(BinOp::Eq, Self::all_set_int(), self.lane_int(), other.lane_int()),
    ;
}

/// Applies the scalar reference operation named by `op` to one pair of lanes.
pub fn lane_apply<T: Lane>(op: BinOp, a: T, b: T) -> (r: T)
    ensures
        r.lane_int() == lane_result(op, T::all_set_int(), a.lane_int(), b.lane_int()),
{
    match op {
        BinOp::Min => a.lane_min(b),
        BinOp::Max => a.lane_max(b),
        BinOp::Eq => a.lane_eq_mask(b),
    }
}

impl Lane for u8 {
    open spec fn lane_int(self) -> int {
        self as int
    }

    open spec fn all_set_int() -> int {
        0xff
    }

    fn lane_min(self, other: Self) -> (r: Self) {
        if self <= other {
            self
        } else {
            other
        }
    }

    fn lane_max(self, other: Self) -> (r: Self) {
        if self <= other {
            other
        } else {
            self
        }
    }

    fn lane_eq_mask(self, other: Self) -> (r: Self) {
        if self == other {
            0xff
        } else {
            0
        }
    }
}

impl Lane for i8 {
    open spec fn lane_int(self) -> int {
        self as int
    }

    open spec fn all_set_int() -> int {
        -1
    }

    fn lane_min(self, other: Self) -> (r: Self) {
        if self <= other {
            self
        } else {
            other
        }
    }

    fn lane_max(self, other: Self) -> (r: Self) {
        if self <= other {
            other
        } else {
            self
        }
    }

    fn lane_eq_mask(self, other: Self) -> (r: Self) {
        if self == other {
            -1
        } else {
            0
        }
    }
}

impl Lane for u16 {
    open spec fn lane_int(self) -> int {
        self as int
    }

    open spec fn all_set_int() -> int {
        0xffff
    }

    fn lane_min(self, other: Self) -> (r: Self) {
        if self <= other {
            self
        } else {
            other
        }
    }

    fn lane_max(self, other: Self) -> (r: Self) {
        if self <= other {
            other
        } else {
            self
        }
    }

    fn lane_eq_mask(self, other: Self) -> (r: Self) {
        if self == other {
            0xffff
        } else {
            0
        }
    }
}

impl Lane for i16 {
    open spec fn lane_int(self) -> int {
        self as int
    }

    open spec fn all_set_int() -> int {
        -1
    }

    fn lane_min(self, other: Self) -> (r: Self) {
        if self <= other {
            self
        } else {
            other
        }
    }

    fn lane_max(self, other: Self) -> (r: Self) {
        if self <= other {
            other
        } else {
            self
        }
    }

    fn lane_eq_mask(self, other: Self) -> (r: Self) {
        if self == other {
            -1
        } else {
            0
        }
    }
}

impl Lane for u32 {
    open spec fn lane_int(self) -> int {
        self as int
    }

    open spec fn all_set_int() -> int {
        0xffff_ffff
    }

    fn lane_min(self, other: Self) -> (r: Self) {
        if self <= other {
            self
        } else {
            other
        }
    }

    fn lane_max(self, other: Self) -> (r: Self) {
        if self <= other {
            other
        } else {
            self
        }
    }

    fn lane_eq_mask(self, other: Self) -> (r: Self) {
        if self == other {
            0xffff_ffff
        } else {
            0
        }
    }
}

impl Lane for i32 {
    open spec fn lane_int(self) -> int {
        self as int
    }

    open spec fn all_set_int() -> int {
        -1
    }

    fn lane_min(self, other: Self) -> (r: Self) {
        if self <= other {
            self
        } else {
            other
        }
    }

    fn lane_max(self, other: Self) -> (r: Self) {
        if self <= other {
            other
        } else {
            self
        }
    }

    fn lane_eq_mask(self, other: Self) -> (r: Self) {
        if self == other {
            -1
        } else {
            0
        }
    }
}

impl Lane for u64 {
    open spec fn lane_int(self) -> int {
        self as int
    }

    open spec fn all_set_int() -> int {
        0xffff_ffff_ffff_ffff
    }

    fn lane_min(self, other: Self) -> (r: Self) {
        if self <= other {
            self
        } else {
            other
        }
    }

    fn lane_max(self, other: Self) -> (r: Self) {
        if self <= other {
            other
        } else {
            self
        }
    }

    fn lane_eq_mask(self, other: Self) -> (r: Self) {
        if self == other {
            0xffff_ffff_ffff_ffff
        } else {
            0
        }
    }
}

impl Lane for i64 {
    open spec fn lane_int(self) -> int {
        self as int
    }

    open spec fn all_set_int() -> int {
        -1
    }

    fn lane_min(self, other: Self) -> (r: Self) {
        if self <= other {
            self
        } else {
            other
        }
    }

    fn lane_max(self, other: Self) -> (r: Self) {
        if self <= other {
            other
        } else {
            self
        }
    }

    fn lane_eq_mask(self, other: Self) -> (r: Self) {
        if self == other {
            -1
        } else {
            0
        }
    }
}

} // verus!
