//! The packed vector value type.
//!
//! A `Packed` is an immutable, ordered sequence of lanes of one element
//! type; the element type together with the lane count is the vector's
//! shape. It is a plain value type: operations build new vectors rather
//! than mutating operands, and it supports exactly construction from
//! elements and element-wise read access. Its mathematical view is the
//! sequence of its lanes' integer values.

use vstd::prelude::*;

use crate::lane::Lane;

verus! {

/// A packed vector: lanes of one element type in storage order.
pub struct Packed<T> {
    pub(crate) lanes: Vec<T>,
}

impl<T: Lane> View for Packed<T> {
    type V = Seq<int>;

    closed spec fn view(&self) -> Seq<int> {
        self.lanes@.map(|i: int, x: T| x.lane_int())
    }
}

impl<T: Lane> Packed<T> {
    /// Builds a vector from its lanes, in storage order.
    pub fn from_lanes(lanes: Vec<T>) -> (p: Packed<T>)
        ensures
            p@ == lanes@.map(|i: int, x: T| x.lane_int()),
            p@.len() == lanes@.len(),
    {
        Packed { lanes }
    }

    /// The vector's lane count: one half of its shape.
    pub fn lane_count(&self) -> (n: usize)
        ensures
            n == self@.len(),
    {
        self.lanes.len()
    }

    /// Reads the lane at index `i`.
    pub fn lane(&self, i: usize) -> (r: T)
        requires
            i < self@.len(),
        ensures
            r.lane_int() == self@[i as int],
    {
        self.lanes[i]
    }
}

} // verus!
