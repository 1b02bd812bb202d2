//! The closed value sets of a parsed title, and the names of its fields.

pub mod codec;
pub mod field;
pub mod language;

pub use codec::Codec;
pub use field::{FlagField, ListField, NumbersField, TextField};
pub use language::Language;
