//! Decoding, metering and re-encoding of WebAssembly core modules.
//!
//! A module that was read is held as a [`Model`]: one ordered collection per
//! kind of section. The [`Parser`] routes what was read into a model, the
//! [`Encoder`] turns a model into the sections of a module in their canonical
//! order, and, where metering is on, rewrites every function body so that it
//! charges a ledger of remaining points wherever control may leave the
//! straight line.

pub mod decoded;
pub mod encoded;
pub mod encoder;
pub mod errors;
pub mod features;
pub mod mappings;
pub mod metering;
pub mod model;
pub mod parser;

pub use encoder::Encoder;
pub use errors::{ErrorKind, WasmarinError, WasmarinResult};
pub use features::Features;
pub use metering::{Metering, REMAINING_POINTS_EXPORT_NAME};
pub use model::{CodeSectionEntry, Model};
pub use parser::Parser;
