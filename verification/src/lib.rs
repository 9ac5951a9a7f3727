//! A copy-on-write dynamic array: clones share one buffer until one of them writes.

pub mod array;
mod handle;
pub mod laws;
pub mod model;
pub mod text;

pub use array::Array;
