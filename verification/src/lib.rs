//! Middle- and back-end of a compiler for a small C-like language: lowering of
//! a validated syntax tree into a single-block intermediate representation,
//! compile-time constant folding, and code generation for a 32-bit RISC-V-style
//! register machine with a fixed scratch-register pool.

pub mod asm_builder;
pub mod ast;
pub mod errors;
pub mod ir;
pub mod semantics;
pub mod symbols;
pub mod target;
pub mod ir_builder;
