//! The total mapping from the decode-side representation of types and
//! operators to their encode-side counterparts.

pub mod items;
pub mod operators;
pub mod scalars;
pub mod types;
