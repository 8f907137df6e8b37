//! The error taxonomy of specialization.
//!
//! Every failure of the framework or of an extension family flows through the
//! single sum type [`SpecializationError`]; callers handle all of them
//! uniformly and no expected failure is raised as a panic.

use vstd::prelude::*;

verus! {

/// Why a specialization request failed.
#[derive(Clone, Copy, Debug, PartialEq, Eq, Structural)]
pub enum SpecializationError {
    /// The generic identifier is not registered with any extension family.
    UnsupportedId,
    /// An argument is present but of the wrong kind, or names a type whose
    /// capabilities do not permit the requested operation.
    UnsupportedGenericArg,
    /// The argument list does not match the family's expected arity.
    WrongNumberOfGenericArgs,
    /// A referenced concrete type does not resolve in the session's context.
    MissingTypeInfo,
    /// A family produced composite data whose storage size or capability
    /// flags disagree with its resolved members.
    InconsistentMembers,
    /// A family produced a libfunc signature with no branch at all, or with a
    /// fallthrough index that names no branch.
    MalformedSignature,
    /// The total storage size of a composite does not fit a machine word.
    StorageSizeOverflow,
}

/// Why registering an extension family failed.
#[derive(Clone, Copy, Debug, PartialEq, Eq, Structural)]
pub enum RegistryError {
    /// A family is already registered under the same generic identifier.
    DuplicateId,
}

} // verus!
