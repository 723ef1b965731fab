//! Reader for Dalvik Executable (DEX) files.
//!
//! The crate decodes the header and section tables of a DEX image, its
//! variable-length integers, Modified UTF-8 strings, class data, code items,
//! encoded values and bytecode, each over a plain byte or code-unit slice.

pub mod error;
pub mod leb128;
pub mod file;
pub mod utf;
pub mod desc_names;
