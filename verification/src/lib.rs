//! Rust tokens for a module that bridges Rust and Swift.
//!
//! A bridge module names functions and types of either language. This crate lays out the Rust
//! side of such a module: one `mod` item that exports the Rust functions to C, declares the Swift
//! functions that are linked in, wraps every Swift class in a Rust struct and releases the
//! memory of opaque values on both sides.

pub mod codegen;
pub mod ident;
pub mod items;
pub mod layout;
pub mod laws;
pub mod module;
pub mod names;
pub mod token;
