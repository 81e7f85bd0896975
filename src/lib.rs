//! Four-lane 32-bit and sixteen-lane 8-bit vectors with lane-wise
//! arithmetic, comparisons that produce masks, lane reordering and
//! bit reinterpretation.
use vstd::prelude::*;

pub mod bytes;
pub mod float;
pub mod laws;
pub mod mask;
pub mod signed;
pub mod swizzle;

pub use bytes::U8x16;
pub use float::F32x4;
pub use signed::I32x4;
pub use mask::U32x4;

verus! {

} // verus!
