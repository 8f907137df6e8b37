//! Interned names for generic extension families and for concrete types.
//!
//! Identifiers are pure value objects: a name, equality on the name, and
//! nothing more.  Equality of two identifiers means equality of their views,
//! so contracts elsewhere can speak of identifiers through `@` alone.

use vstd::prelude::*;

verus! {

/// The name of a generic extension family (a generic type or a generic
/// libfunc), e.g. `"Box"` or `"felt_add"`.
#[derive(Debug, Hash)]
pub struct GenericId {
    pub name: String,
}

impl View for GenericId {
    type V = Seq<char>;

    open spec fn view(&self) -> Seq<char> {
        self.name@
    }
}

impl GenericId {
    pub fn new(name: String) -> (r: GenericId)
        ensures
            r@ == name@,
    {
        GenericId { name }
    }

    /// Convenience constructor from a string slice.
    pub fn named(name: &str) -> (r: GenericId)
        ensures
            r@ == name@,
    {
        GenericId { name: name.to_owned() }
    }
}

impl Clone for GenericId {
    fn clone(&self) -> (r: Self)
        ensures
            r@ == self@,
    {
        GenericId { name: self.name.clone() }
    }
}

impl PartialEq for GenericId {
    fn eq(&self, other: &Self) -> bool {
        self.name == other.name
    }
}

impl vstd::std_specs::cmp::PartialEqSpecImpl for GenericId {
    open spec fn obeys_eq_spec() -> bool {
        true
    }

    open spec fn eq_spec(&self, other: &Self) -> bool {
        self@ == other@
    }
}

/// The name under which an already-specialized concrete type is known to the
/// rest of the session, e.g. `"felt"` or `"Box<felt>"`.  Generic arguments
/// refer to concrete types by such names, and a [`crate::context::SpecializationContext`]
/// resolves them to their descriptors.
#[derive(Debug, Hash)]
pub struct ConcreteTypeId {
    pub name: String,
}

impl View for ConcreteTypeId {
    type V = Seq<char>;

    open spec fn view(&self) -> Seq<char> {
        self.name@
    }
}

impl ConcreteTypeId {
    pub fn new(name: String) -> (r: ConcreteTypeId)
        ensures
            r@ == name@,
    {
        ConcreteTypeId { name }
    }

    /// Convenience constructor from a string slice.
    pub fn named(name: &str) -> (r: ConcreteTypeId)
        ensures
            r@ == name@,
    {
        ConcreteTypeId { name: name.to_owned() }
    }
}

impl Clone for ConcreteTypeId {
    fn clone(&self) -> (r: Self)
        ensures
            r@ == self@,
    {
        ConcreteTypeId { name: self.name.clone() }
    }
}

impl PartialEq for ConcreteTypeId {
    fn eq(&self, other: &Self) -> bool {
        self.name == other.name
    }
}

impl vstd::std_specs::cmp::PartialEqSpecImpl for ConcreteTypeId {
    open spec fn obeys_eq_spec() -> bool {
        true
    }

    open spec fn eq_spec(&self, other: &Self) -> bool {
        self@ == other@
    }
}

} // verus!
