//! An in-memory code-generation pipeline: callers declare functions and data
//! with a chosen linkage, build instruction sequences over a block-structured
//! control-flow graph with named variables, and obtain a relocatable object
//! file for a fixed target machine.

pub mod types;
pub mod target;
pub mod ir;
pub mod builder;
pub mod module;
pub mod backend;
pub mod emit;
pub mod demo;
