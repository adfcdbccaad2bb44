//! The error taxonomy shared by IR lowering and code generation.
//!
//! Every fallible operation of the compiler core threads one of these kinds up
//! to the caller; none of them is recovered from locally.

use vstd::prelude::*;

verus! {

/// An error raised during IR lowering or code generation.
#[derive(Debug, Clone, PartialEq, Eq)]
pub enum CompileError {
    /// An identifier was referenced but never declared (user error).
    UndeclaredIdentifier(String),
    /// A `const` initializer referenced a non-constant binding (user error).
    NonConstantInitializer,
    /// The target of an assignment was declared `const` (user error).
    ConstantAssignment,
    /// A `const` initializer divided by zero while being folded (user error).
    DivisionByZero,
    /// An IR operator outside the supported fragment reached code generation
    /// (implementation limitation, not a language error).
    UnsupportedOperator,
    /// A grammar node outside the supported fragment (implementation
    /// limitation, not a language error).
    UnsupportedConstruct,
    /// No free scratch register was available (resource-limit error).
    RegisterPoolExhausted,
    /// The IR program handed to code generation broke an internal invariant,
    /// e.g. a result handle referenced before its definition.
    MalformedProgram,
}

} // verus!
