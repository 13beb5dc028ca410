//! Length-bounded sequences whose bound is carried by the type.

pub mod bound;
pub mod bounded_slice;
pub mod bounded_vec;
pub mod codec;
pub mod collect;
pub mod compare;
mod conversions;
mod fmt;
pub mod jam;
pub mod laws;
pub mod model;
pub mod scale;
pub mod sequence;
pub mod sorting;
mod std_ops;

pub use bound::{ConstU32, Get};
pub use bounded_slice::BoundedSlice;
pub use bounded_vec::{BoundedVec, TruncateFrom};
pub use collect::TryCollect;
