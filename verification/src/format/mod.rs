//! The serialized format of tokens and the conversions to and from it.
pub mod convert;
pub mod schema;
