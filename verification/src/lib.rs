//! Specialization framework for the generic building blocks of a
//! stack-machine intermediate representation.
//!
//! Generic library functions ("libfuncs") and generic types — parameterized
//! building blocks such as boxes or composites — are turned into fully
//! concrete, type-checked descriptors with computed signatures, branch
//! behavior and resource costs.  The framework dispatches each generic
//! identifier to the extension family registered for it, validates the
//! structural invariants of whatever the family produced, and memoizes the
//! result, so that specialization is a pure function of the identifier, the
//! argument list and the session's type environment.

pub mod args;
pub mod context;
pub mod encode;
pub mod error;
pub mod families;
pub mod ids;
pub mod libfuncs;
pub mod program;
pub mod types;
