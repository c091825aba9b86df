//! Writes the Rust side of a CXX-Qt bridge: the per-object fragments of one
//! bridge module are merged, in declaration order, into a CXX bridge module
//! and the implementation module that accompanies it.
//!
//! The writer keeps no state of its own. It reads and writes tokens through
//! `proc_macro2`, which it switches to its own implementation for the length
//! of each call; inside a procedural macro it must therefore be called from
//! one thread at a time.

pub mod syntax;
pub mod naming;
pub mod generator;
pub mod writer;
pub mod inheritance;
pub mod invokable;
