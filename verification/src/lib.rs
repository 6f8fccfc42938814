//! Conversions between the datalog blocks and signatures of an authorization
//! token and the messages of its serialized format.
pub mod crypto;
pub mod datalog;
pub mod error;
pub mod format;
pub mod token;
