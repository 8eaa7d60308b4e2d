//! Compiler for a declarative, tree-shaped terrain expression language
//! ("density functions") into ordered sequences of single-assignment numeric
//! instructions.
//!
//! Content authors describe terrain shape as a tree of named operators
//! (arithmetic combinators, noise samplers, caching hints, clamps, routing
//! nodes) held in name-keyed registries. This crate holds the schema for those
//! trees, the registry resolution that lets one expression reference another by
//! identifier, and the code-generation engine that linearizes a tree into a
//! procedure: an ordered instruction list plus the name of the instruction
//! holding the final value. Floating-point parameters are carried as IEEE 754
//! bit patterns; a downstream numeric backend interprets them.

pub mod codegen;
pub mod ir;
pub mod laws;
pub mod registry;
pub mod schema;
