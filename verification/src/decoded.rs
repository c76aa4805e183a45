//! The decode-side representation of a module's contents.

pub mod immediates;
pub mod module;
pub mod operator;
pub mod types;
