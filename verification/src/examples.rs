//! Hand-written instances of the per-type glue that the code-generation
//! collaborator emits: for each record or union type, its metadata
//! markers, its decomposition shape, and its [`crate::convert::Destruct`]
//! implementation (with the round-trip laws proved), plus parser
//! implementations for the types meant to be parsed from bytes.
//!
//! They double as the reference for what generated glue must provide, and
//! as the concrete types the test suite exercises.

pub mod basic;
pub mod validated;
