//! Helpers for extracting typed values from generic-argument lists.
//!
//! Every extension family validates its argument list in the same two stages:
//! first the arity, then the kind of each argument.  The helpers here cover
//! the common shapes — a single type, a single value, a type-and-value pair,
//! and a variadic list of types — with one exact contract each, so that a
//! family's own specialization logic starts from already-validated data.

use vstd::prelude::*;

use crate::error::SpecializationError;
use crate::ids::ConcreteTypeId;
use crate::program::GenericArg;
use crate::program::GenericArgView;
use crate::program::args_view;

verus! {

/// The views of a sequence of concrete type ids.
pub open spec fn type_ids_view(s: Seq<ConcreteTypeId>) -> Seq<Seq<char>> {
    s.map_values(|t: ConcreteTypeId| t@)
}

/// What extracting a single type argument yields: the type on exactly one
/// argument of kind `Type`, the arity error on any other length, and the
/// kind error on a single argument of another kind.
pub open spec fn spec_single_type(args: Seq<GenericArgView>) -> Result<
    Seq<char>,
    SpecializationError,
> {
    if args.len() != 1 {
        Err(SpecializationError::WrongNumberOfGenericArgs)
    } else {
        match args[0] {
            GenericArgView::Type(ty) => Ok(ty),
            _ => Err(SpecializationError::UnsupportedGenericArg),
        }
    }
}

/// Helper for extracting the type from the template arguments.
pub fn as_single_type(args: &[GenericArg]) -> (r: Result<ConcreteTypeId, SpecializationError>)
    ensures
        (match r {
            Ok(ty) => spec_single_type(args_view(args@)) == Ok::<_, SpecializationError>(ty@),
            Err(e) => spec_single_type(args_view(args@)) == Err::<Seq<char>, _>(e),
        }),
{
    if args.len() != 1 {
        Err(SpecializationError::WrongNumberOfGenericArgs)
    } else {
        match &args[0] {
            GenericArg::Type(ty) => Ok(ty.clone()),
            _ => Err(SpecializationError::UnsupportedGenericArg),
        }
    }
}

/// What extracting a single value argument yields, with the same two-stage
/// validation as [`spec_single_type`].
pub open spec fn spec_single_value(args: Seq<GenericArgView>) -> Result<
    int,
    SpecializationError,
> {
    if args.len() != 1 {
        Err(SpecializationError::WrongNumberOfGenericArgs)
    } else {
        match args[0] {
            GenericArgView::Value(v) => Ok(v),
            _ => Err(SpecializationError::UnsupportedGenericArg),
        }
    }
}

/// Helper for extracting the value from the template arguments.
pub fn as_single_value(args: &[GenericArg]) -> (r: Result<i128, SpecializationError>)
    ensures
        (match r {
            Ok(v) => spec_single_value(args_view(args@)) == Ok::<_, SpecializationError>(v as int),
            Err(e) => spec_single_value(args_view(args@)) == Err::<int, _>(e),
        }),
{
    if args.len() != 1 {
        Err(SpecializationError::WrongNumberOfGenericArgs)
    } else {
        match &args[0] {
            GenericArg::Value(v) => Ok(*v),
            _ => Err(SpecializationError::UnsupportedGenericArg),
        }
    }
}

/// What extracting a type-and-value pair yields: the pair on exactly a `Type`
/// argument followed by a `Value` argument.
pub open spec fn spec_type_and_value(args: Seq<GenericArgView>) -> Result<
    (Seq<char>, int),
    SpecializationError,
> {
    if args.len() != 2 {
        Err(SpecializationError::WrongNumberOfGenericArgs)
    } else {
        match (args[0], args[1]) {
            (GenericArgView::Type(ty), GenericArgView::Value(v)) => Ok((ty, v)),
            _ => Err(SpecializationError::UnsupportedGenericArg),
        }
    }
}

/// Helper for extracting a type followed by a value from the template
/// arguments.
pub fn as_type_and_value(args: &[GenericArg]) -> (r: Result<
    (ConcreteTypeId, i128),
    SpecializationError,
>)
    ensures
        (match r {
            Ok(pair) => spec_type_and_value(args_view(args@)) == Ok::<_, SpecializationError>(
                (pair.0@, pair.1 as int),
            ),
            Err(e) => spec_type_and_value(args_view(args@)) == Err::<(Seq<char>, int), _>(e),
        }),
{
    if args.len() != 2 {
        Err(SpecializationError::WrongNumberOfGenericArgs)
    } else {
        match (&args[0], &args[1]) {
            (GenericArg::Type(ty), GenericArg::Value(v)) => Ok((ty.clone(), *v)),
            _ => Err(SpecializationError::UnsupportedGenericArg),
        }
    }
}

/// What extracting a variadic type list yields: the types in order when every
/// argument is of kind `Type`, and the kind error otherwise.  Any length is
/// accepted, the empty list included.
pub open spec fn spec_type_list(args: Seq<GenericArgView>) -> Result<
    Seq<Seq<char>>,
    SpecializationError,
> {
    if forall|j: int| 0 <= j < args.len() ==> args[j] is Type {
        Ok(Seq::new(args.len(), |j: int| args[j]->Type_0))
    } else {
        Err(SpecializationError::UnsupportedGenericArg)
    }
}

/// Helper for extracting a list of types from the template arguments.
pub fn as_type_list(args: &[GenericArg]) -> (r: Result<Vec<ConcreteTypeId>, SpecializationError>)
    ensures
        (match r {
            Ok(tys) => spec_type_list(args_view(args@)) == Ok::<_, SpecializationError>(
                type_ids_view(tys@),
            ),
            Err(e) => spec_type_list(args_view(args@)) == Err::<Seq<Seq<char>>, _>(e),
        }),
{
    let mut out: Vec<ConcreteTypeId> = Vec::new();
    let mut i: usize = 0;
    while i < args.len()
        invariant
            i <= args@.len(),
            out@.len() == i,
            forall|j: int| 0 <= j < i ==> args@[j]@ is Type,
            forall|j: int| 0 <= j < i ==> out@[j]@ == args@[j]@->Type_0,
        decreases args@.len() - i,
    {
        match &args[i] {
            GenericArg::Type(ty) => {
                out.push(ty.clone());
            },
            _ => {
                proof {
                    assert(args_view(args@)[i as int] == args@[i as int]@);
                }
                return Err(SpecializationError::UnsupportedGenericArg);
            },
        }
        i = i + 1;
    }
    proof {
        assert(forall|j: int|
            0 <= j < args@.len() ==> args_view(args@)[j] == args@[j]@);
        assert(type_ids_view(out@) =~= Seq::new(
            args_view(args@).len(),
            |j: int| args_view(args@)[j]->Type_0,
        ));
    }
    Ok(out)
}

} // verus!
