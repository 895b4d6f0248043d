//! Vectorized elementwise comparison primitives over packed numeric vectors.
//!
//! Each operation — lanewise minimum, maximum and equality masking — exists
//! in two semantically equivalent forms: an accelerated form using a single
//! hardware vector instruction, gated on a CPU capability, and a portable
//! per-lane fallback. A capability-gated dispatcher binds the operation, the
//! vector shape and the required capability together and falls back
//! transparently when the capability is absent; both paths are specified
//! against the same lanewise reference semantics, so the choice of path is
//! unobservable in the result.

pub mod accel;
pub mod caps;
pub mod cmp;
pub mod fallback;
pub mod lane;
pub mod ops;
pub mod packed;
