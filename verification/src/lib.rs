//! A programmatic assembler for JVM class files.
//!
//! Callers construct a class one call per instruction: a `ClassBuilder`
//! interns literals and symbolic references into a deduplicated constant pool, a
//! `MethodBuilder` accumulates instructions with symbolic-label branch
//! resolution and synthesizes stack-map verifier metadata, and the finished structure is
//! returned as a `Classfile` value ready for binary serialization.

pub mod class_builder;
pub mod classfile;
pub mod descriptor;
pub mod laws;
