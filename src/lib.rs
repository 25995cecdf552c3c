//! Conversions from slices, whose length is known only at run time, to
//! arrays, whose length is part of their type.

pub mod borrow;
pub mod builder;
pub mod reexport;

pub use borrow::{slice_as_array, slice_as_array_mut};
pub use builder::{slice_to_array_clone, FixedArrayBuilder};
pub use reexport::{clone, forget};
