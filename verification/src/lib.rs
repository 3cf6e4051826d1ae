//! Static semantic analysis for a small imperative scripting language.
//!
//! The analysis consumes a parsed syntax tree and produces a typed tree
//! together with every diagnostic found, without stopping at the first one.

pub mod ast;
pub mod report;
pub mod semantic_analysis;
pub mod syntax;
