//! A semantic validation pass over a function's type-checked body IR.
//!
//! The pass walks a body's expressions once, flags record literals that omit
//! declared fields, and, on the body's tail expression, detects a declared
//! fallible-wrapper return type and extracts its success-type argument.

pub mod name;
mod name_set;
pub mod ir;
pub mod diagnostics;
pub mod syntax;
pub mod validation;
