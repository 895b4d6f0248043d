//! The operation descriptors and their scalar reference semantics.
//!
//! Every implementation path of an operation — accelerated or per-lane
//! fallback — is specified against `lanewise_result`, so the equivalence of
//! the two paths is enforced centrally rather than re-derived per shape.

use vstd::prelude::*;

verus! {

/// Identifies one of the binary elementwise operations.
///
/// `Min` and `Max` use the element type's own ordering (signed comparison for
/// signed element types, unsigned comparison for unsigned ones). `Eq` builds
/// a mask: a lane holds the element type's all-bits-set value where the
/// operand lanes are equal and zero where they differ.
#[derive(Clone, Copy, PartialEq, Eq, Structural, Debug)]
pub enum BinOp {
    Min,
    Max,
    Eq,
}

/// The minimum of two mathematical integers.
pub open spec fn int_min(a: int, b: int) -> int {
    if a <= b {
        a
    } else {
        b
    }
}

/// The maximum of two mathematical integers.
pub open spec fn int_max(a: int, b: int) -> int {
    if a <= b {
        b
    } else {
        a
    }
}

/// The scalar reference semantics of `op` on one pair of lane values.
///
/// `all_set` is the element type's all-bits-set value (255 for an unsigned
/// 8-bit lane, -1 for any signed lane), used as the "true" mask by `Eq`.
pub open spec fn lane_result(op: BinOp, all_set: int, a: int, b: int) -> int {
    match op {
        BinOp::Min => int_min(a, b),
        BinOp::Max => int_max(a, b),
        BinOp::Eq => if a == b {
            all_set
        } else {
            0
        },
    }
}

/// Lanewise application of `op` over two vectors of lane values: lane `i` of
/// the result is a function of lane `i` of the operands only, and the result
/// has exactly the left operand's lane count.
pub open spec fn lanewise_result(op: BinOp, all_set: int, a: Seq<int>, b: Seq<int>) -> Seq<int> {
    Seq::new(a.len(), |i: int| lane_result(op, all_set, a[i], b[i]))
}

/// Equivalence of the accelerated and the fallback path: any two results that
/// satisfy the lanewise contract for the same operation and the same operands
/// are equal, lane for lane. Both paths of every comparison operation promise
/// exactly `lanewise_result`, so which path a dispatcher picks cannot be
/// observed in the result.
pub proof fn lemma_paths_agree(
    op: BinOp,
    all_set: int,
    a: Seq<int>,
    b: Seq<int>,
    r_accel: Seq<int>,
    r_fallback: Seq<int>,
)
    requires
        r_accel == lanewise_result(op, all_set, a, b),
        r_fallback == lanewise_result(op, all_set, a, b),
    ensures
        r_accel == r_fallback,
{
}

/// Comparing any vector with itself for equality sets every lane of the mask.
pub proof fn lemma_eq_self_all_set(all_set: int, a: Seq<int>)
    ensures
        lanewise_result(BinOp::Eq, all_set, a, a) == Seq::new(a.len(), |i: int| all_set),
{
    assert(lanewise_result(BinOp::Eq, all_set, a, a) =~= Seq::new(a.len(), |i: int| all_set));
}

/// `min` is commutative on vectors of equal shape.
pub proof fn lemma_min_commutes(all_set: int, a: Seq<int>, b: Seq<int>)
    requires
        a.len() == b.len(),
    ensures
        lanewise_result(BinOp::Min, all_set, a, b) == lanewise_result(BinOp::Min, all_set, b, a),
{
    assert(lanewise_result(BinOp::Min, all_set, a, b) =~= lanewise_result(
        BinOp::Min,
        all_set,
        b,
        a,
    ));
}

/// `max` is commutative on vectors of equal shape.
pub proof fn lemma_max_commutes(all_set: int, a: Seq<int>, b: Seq<int>)
    requires
        a.len() == b.len(),
    ensures
        lanewise_result(BinOp::Max, all_set, a, b) == lanewise_result(BinOp::Max, all_set, b, a),
{
    assert(lanewise_result(BinOp::Max, all_set, a, b) =~= lanewise_result(
        BinOp::Max,
        all_set,
        b,
        a,
    ));
}

/// `min` of a vector with itself is the vector.
pub proof fn lemma_min_self(all_set: int, a: Seq<int>)
    ensures
        lanewise_result(BinOp::Min, all_set, a, a) == a,
{
    assert(lanewise_result(BinOp::Min, all_set, a, a) =~= a);
}

/// `max` of a vector with itself is the vector.
pub proof fn lemma_max_self(all_set: int, a: Seq<int>)
    ensures
        lanewise_result(BinOp::Max, all_set, a, a) == a,
{
    assert(lanewise_result(BinOp::Max, all_set, a, a) =~= a);
}

/// Shape preservation: every operation yields exactly as many lanes as its
/// left operand, whatever path computes it.
pub proof fn lemma_shape_preserved(op: BinOp, all_set: int, a: Seq<int>, b: Seq<int>)
    ensures
        lanewise_result(op, all_set, a, b).len() == a.len(),
{
}

} // verus!
