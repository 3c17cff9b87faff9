//! Safe inspection of pickle-encoded object graphs.
//!
//! The byte stream is decoded into typed instructions and interpreted by a
//! stack machine that never runs code the file names, unless the qualified
//! name is present in an explicit registry of safe constructors; everything
//! else is captured as inert, inspectable data.

pub mod ast;
pub mod decoder;
pub mod error;
pub mod interpreter;
pub mod opcodes;
pub mod props;
pub mod value;
