//! Back end of a small scripting language: a bytecode compiler with its
//! stack virtual machine, and two direct-to-assembly code generators.
//!
//! Every compiler, virtual machine and generator instance owns all of its
//! mutable state (chunk, stack, global table, label counter, literal
//! pools); concurrent instances share nothing.
pub mod aarch64;
pub mod arith;
pub mod ast;
pub mod bytecode;
pub mod compiler;
pub mod float_bits;
pub mod globals;
pub mod laws;
pub mod native;
pub mod target;
pub mod text;
pub mod value;
pub mod vm;
pub mod x86_64;
