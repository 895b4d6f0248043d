//! CPU capabilities and the static capability registry.
//!
//! A capability names a hardware feature that gates an accelerated
//! instruction. Detecting what the running processor offers is outside this
//! library — detection is a boolean oracle — so callers obtain a
//! `CapabilitySet` once at the boundary and pass it in; the dispatcher then
//! needs only a single cheap test per call.

use vstd::prelude::*;

use crate::ops::BinOp;

verus! {

/// A named CPU capability gating an accelerated path for some shape.
#[derive(Clone, Copy, PartialEq, Eq, Structural, Debug)]
pub enum Capability {
    /// The baseline 128-bit vector tier.
    Sse2,
    /// The extended 128-bit vector tier.
    Sse41,
    /// The 256-bit integer vector tier.
    Avx2,
}

/// The capability-detection oracle's answers for the running processor.
#[derive(Clone, Copy, PartialEq, Eq, Structural, Debug)]
pub struct CapabilitySet {
    pub sse2: bool,
    pub sse41: bool,
    pub avx2: bool,
}

impl CapabilitySet {
    /// Whether the capability `c` is available, as a spec-level fact.
    pub open spec fn spec_has(self, c: Capability) -> bool {
        match c {
            Capability::Sse2 => self.sse2,
            Capability::Sse41 => self.sse41,
            Capability::Avx2 => self.avx2,
        }
    }

    /// Whether the capability `c` is available.
    pub fn has(&self, c: Capability) -> (r: bool)
        ensures
            r == self.spec_has(c),
    {
        match c {
            Capability::Sse2 => self.sse2,
            Capability::Sse41 => self.sse41,
            Capability::Avx2 => self.avx2,
        }
    }

    /// The empty capability set: every operation takes the fallback path.
    pub fn portable() -> (r: Self)
        ensures
            !r.sse2,
            !r.sse41,
            !r.avx2,
    {
        CapabilitySet { sse2: false, sse41: false, avx2: false }
    }
}

/// The element kinds of the supported shapes.
#[derive(Clone, Copy, PartialEq, Eq, Structural, Debug)]
pub enum ElemKind {
    U8,
    I8,
    U16,
    I16,
    U32,
    I32,
    U64,
    I64,
}

/// The static capability registry: the capability required to run `op` on
/// the shape `(elem, lane_count)` in accelerated form, or `None` where no
/// accelerated instruction is registered — such shapes always take the
/// fallback path, resolved by this same table rather than by per-shape
/// special cases.
///
/// All three comparison operations of one shape share a tier, as the
/// underlying instruction sets group them: unsigned 8-bit comparisons are in
/// the baseline tier at 16 lanes and in the 256-bit tier at 32 lanes, the
/// remaining accelerated 128-bit integer shapes need the extended tier, and
/// 64-bit integer shapes have no accelerated comparison at all. Signed and
/// unsigned variants of one width are distinct rows, since their
/// instructions differ and one ordering must never be substituted for the
/// other.
pub open spec fn spec_required_capability(op: BinOp, elem: ElemKind, lane_count: nat) -> Option<
    Capability,
> {
    match elem {
        ElemKind::U8 => if lane_count == 16 {
            Option::Some(Capability::Sse2)
        } else if lane_count == 32 {
            Option::Some(Capability::Avx2)
        } else {
            Option::None
        },
        ElemKind::I8 => if lane_count == 16 {
            Option::Some(Capability::Sse41)
        } else {
            Option::None
        },
        ElemKind::U16 => if lane_count == 8 {
            Option::Some(Capability::Sse41)
        } else {
            Option::None
        },
        ElemKind::I16 => if lane_count == 8 {
            Option::Some(Capability::Sse41)
        } else {
            Option::None
        },
        ElemKind::U32 => if lane_count == 4 {
            Option::Some(Capability::Sse41)
        } else {
            Option::None
        },
        ElemKind::I32 => if lane_count == 4 {
            Option::Some(Capability::Sse41)
        } else {
            Option::None
        },
        ElemKind::U64 => Option::None,
        ElemKind::I64 => Option::None,
    }
}

/// Looks the shape up in the capability registry.
pub fn required_capability(op: BinOp, elem: ElemKind, lane_count: usize) -> (r: Option<Capability>)
    ensures
        r == spec_required_capability(op, elem, lane_count as nat),
{
    match elem {
        ElemKind::U8 => if lane_count == 16 {
            Option::Some(Capability::Sse2)
        } else if lane_count == 32 {
            Option::Some(Capability::Avx2)
        } else {
            Option::None
        },
        ElemKind::I8 => if lane_count == 16 {
            Option::Some(Capability::Sse41)
        } else {
            Option::None
        },
        ElemKind::U16 => if lane_count == 8 {
            Option::Some(Capability::Sse41)
        } else {
            Option::None
        },
        ElemKind::I16 => if lane_count == 8 {
            Option::Some(Capability::Sse41)
        } else {
            Option::None
        },
        ElemKind::U32 => if lane_count == 4 {
            Option::Some(Capability::Sse41)
        } else {
            Option::None
        },
        ElemKind::I32 => if lane_count == 4 {
            Option::Some(Capability::Sse41)
        } else {
            Option::None
        },
        ElemKind::U64 => Option::None,
        ElemKind::I64 => Option::None,
    }
}

/// Whether the dispatcher may take the accelerated path for `(op, shape)`:
/// the registry holds an entry and the processor offers that capability.
pub open spec fn spec_accel_available(
    op: BinOp,
    elem: ElemKind,
    lane_count: nat,
    caps: CapabilitySet,
) -> bool {
    match spec_required_capability(op, elem, lane_count) {
        Option::Some(c) => caps.spec_has(c),
        Option::None => false,
    }
}

/// The dispatcher's one runtime test: registry entry present and capability
/// available.
pub fn accel_available(op: BinOp, elem: ElemKind, lane_count: usize, caps: &CapabilitySet) -> (r:
    bool)
    ensures
        r == spec_accel_available(op, elem, lane_count as nat, *caps),
{
    match required_capability(op, elem, lane_count) {
        Option::Some(c) => caps.has(c),
        Option::None => false,
    }
}

} // verus!
