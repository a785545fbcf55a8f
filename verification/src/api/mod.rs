//! The bindings generator: a description of the native API and the Rust
//! declarations written from it.

pub mod ctype;
pub mod defines;
pub mod document;
pub mod enums;
pub mod functions;
pub mod naming;
pub mod schema;
pub mod structs;
