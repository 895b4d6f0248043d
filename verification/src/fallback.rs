//! The per-lane fallback evaluator.
//!
//! Applies a scalar reference operation independently to every lane of two
//! input vectors and assembles a result of identical shape, with no
//! dependency on any hardware vector instruction. Lane `i` of the result is
//! a function of lane `i` of the operands only.

use vstd::prelude::*;

use crate::lane::{lane_apply, Lane};
use crate::ops::{lane_result, lanewise_result, BinOp};
use crate::packed::Packed;

verus! {

/// Computes `op` lane by lane over `a` and `b`, in storage order, using the
/// element type's verified scalar operations. Total for every pair of
/// operands of one shape, whatever the shape's lane count.
pub fn apply_lanewise<T: Lane>(op: BinOp, a: &Packed<T>, b: &Packed<T>) -> (r: Packed<T>)
    requires
        a@.len() == b@.len(),
    ensures
        r@ == lanewise_result(op, T::all_set_int(), a@, b@),
{
    let n = a.lane_count();
    let mut out: Vec<T> = Vec::new();
    let mut i: usize = 0;
    while i < n
        invariant
            n == a@.len(),
            a@.len() == b@.len(),
            i <= n,
            out@.len() == i,
            forall|j: int|
                0 <= j < i ==> out@[j].lane_int() == lane_result(
                    op,
                    T::all_set_int(),
                    a@[j],
                    b@[j],
                ),
        decreases n - i,
    {
        let x = a.lane(i);
        let y = b.lane(i);
        out.push(lane_apply(op, x, y));
        i += 1;
    }
    let r = Packed::from_lanes(out);
    proof {
        assert(r@ =~= lanewise_result(op, T::all_set_int(), a@, b@));
    }
    r
}

} // verus!
