//! The writers: from the generated blocks of a bridge to the modules that
//! are handed to the compiler.

pub mod common;
pub mod module;
pub mod rust;
pub mod laws;
