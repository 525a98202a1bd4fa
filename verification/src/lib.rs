//! Parsing and validation of the parameters of a `catch` attribute.
//!
//! The engine turns a list of raw annotation parameters into a validated
//! record, emitting severity-tagged, span-located diagnostics along the way.
//! Structural problems abort processing of the current declaration; value
//! problems are recorded and replaced with documented sentinel values so the
//! rest of the parameter list can still be checked in the same pass.

pub mod ast;
pub mod catch;
pub mod common;
pub mod diag;
pub mod laws;
pub mod media;
pub mod registry;
pub mod span;
