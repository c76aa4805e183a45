//! The encode-side representation of a module's contents.

pub mod immediates;
pub mod module;
pub mod instruction;
pub mod types;
