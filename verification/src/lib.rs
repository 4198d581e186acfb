//! A compile-time declaration processor: it takes a batch of parsed
//! top-level declarations, recognizes tagged unions and type-level
//! functions, validates each against a fixed set of structural rules, and
//! either accepts the batch (building an intermediate representation) or
//! reports the diagnostics recorded up to the first failing declaration.

pub mod decl;
pub mod diag;
pub mod ir;
pub mod laws;
pub mod validate;
