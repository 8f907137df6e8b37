//! The generic-argument model.
//!
//! A generic extension accepts an ordered list of [`GenericArg`]s as its
//! specialization parameters: a reference to an already-concretized type, a
//! value literal, or a user-provided type tag.  The order of the list is
//! significant and is part of the key under which specialization results are
//! cached, carried by [`LongId`].

use vstd::prelude::*;

use crate::ids::ConcreteTypeId;
use crate::ids::GenericId;

verus! {

/// One specialization parameter of a generic extension.
#[derive(Debug)]
pub enum GenericArg {
    /// A reference to an already-specialized concrete type.
    Type(ConcreteTypeId),
    /// A value literal, e.g. the width of an integer family.
    Value(i128),
    /// A user-provided type tag, carried opaquely by the framework.
    UserType(String),
}

/// The mathematical value of a [`GenericArg`].
pub enum GenericArgView {
    Type(Seq<char>),
    Value(int),
    UserType(Seq<char>),
}

impl View for GenericArg {
    type V = GenericArgView;

    open spec fn view(&self) -> GenericArgView {
        match self {
            GenericArg::Type(ty) => GenericArgView::Type(ty@),
            GenericArg::Value(v) => GenericArgView::Value(*v as int),
            GenericArg::UserType(name) => GenericArgView::UserType(name@),
        }
    }
}

/// The views of a whole argument list.
pub open spec fn args_view(args: Seq<GenericArg>) -> Seq<GenericArgView> {
    args.map_values(|a: GenericArg| a@)
}

impl Clone for GenericArg {
    fn clone(&self) -> (r: Self)
        ensures
            r@ == self@,
    {
        match self {
            GenericArg::Type(ty) => GenericArg::Type(ty.clone()),
            GenericArg::Value(v) => GenericArg::Value(*v),
            GenericArg::UserType(name) => GenericArg::UserType(name.clone()),
        }
    }
}

impl PartialEq for GenericArg {
    fn eq(&self, other: &Self) -> bool {
        match (self, other) {
            (GenericArg::Type(a), GenericArg::Type(b)) => a == b,
            (GenericArg::Value(a), GenericArg::Value(b)) => *a == *b,
            (GenericArg::UserType(a), GenericArg::UserType(b)) => *a == *b,
            _ => false,
        }
    }
}

impl vstd::std_specs::cmp::PartialEqSpecImpl for GenericArg {
    open spec fn obeys_eq_spec() -> bool {
        true
    }

    open spec fn eq_spec(&self, other: &Self) -> bool {
        self@ == other@
    }
}

/// Clones a whole argument list, preserving its views.
pub fn clone_args(args: &Vec<GenericArg>) -> (r: Vec<GenericArg>)
    ensures
        args_view(r@) == args_view(args@),
{
    let mut out: Vec<GenericArg> = Vec::new();
    let mut i: usize = 0;
    while i < args.len()
        invariant
            i <= args.len(),
            out@.len() == i,
            forall|j: int| 0 <= j < i ==> out@[j]@ == args@[j]@,
        decreases args.len() - i,
    {
        out.push(args[i].clone());
        i = i + 1;
    }
    proof {
        assert(args_view(out@) =~= args_view(args@));
    }
    out
}

/// Compares two argument lists element by element.
pub fn args_eq(a: &Vec<GenericArg>, b: &Vec<GenericArg>) -> (r: bool)
    ensures
        r == (args_view(a@) == args_view(b@)),
{
    if a.len() != b.len() {
        proof {
            assert(args_view(a@).len() != args_view(b@).len());
        }
        return false;
    }
    let mut i: usize = 0;
    while i < a.len()
        invariant
            i <= a.len(),
            a@.len() == b@.len(),
            forall|j: int| 0 <= j < i ==> a@[j]@ == b@[j]@,
        decreases a.len() - i,
    {
        if !(a[i] == b[i]) {
            proof {
                assert(args_view(a@)[i as int] != args_view(b@)[i as int]);
            }
            return false;
        }
        i = i + 1;
    }
    proof {
        assert(args_view(a@) =~= args_view(b@));
    }
    true
}

/// The full identity of a concrete extension: the generic family it was
/// specialized from together with the argument list.  Two requests with equal
/// long ids denote the same concrete descriptor, so the long id is the key of
/// the memoization caches.
#[derive(Debug)]
pub struct LongId {
    pub generic_id: GenericId,
    pub args: Vec<GenericArg>,
}

/// The mathematical value of a [`LongId`].
#[verifier::ext_equal]
pub struct LongIdView {
    pub generic_id: Seq<char>,
    pub args: Seq<GenericArgView>,
}

/// Builds the long-id value of a request from its two parts.
pub open spec fn long_id_view(generic_id: Seq<char>, args: Seq<GenericArgView>) -> LongIdView {
    LongIdView { generic_id, args }
}

impl View for LongId {
    type V = LongIdView;

    open spec fn view(&self) -> LongIdView {
        LongIdView { generic_id: self.generic_id@, args: args_view(self.args@) }
    }
}

impl LongId {
    pub fn new(generic_id: GenericId, args: Vec<GenericArg>) -> (r: LongId)
        ensures
            r@.generic_id == generic_id@,
            r@.args == args_view(args@),
    {
        LongId { generic_id, args }
    }
}

impl Clone for LongId {
    fn clone(&self) -> (r: Self)
        ensures
            r@ == self@,
    {
        let r = LongId { generic_id: self.generic_id.clone(), args: clone_args(&self.args) };
        proof {
            assert(r@ =~= self@);
        }
        r
    }
}

impl PartialEq for LongId {
    fn eq(&self, other: &Self) -> (r: bool) {
        let same = self.generic_id == other.generic_id && args_eq(&self.args, &other.args);
        proof {
            if same {
                assert(self@ =~= other@);
            }
        }
        same
    }
}

impl vstd::std_specs::cmp::PartialEqSpecImpl for LongId {
    open spec fn obeys_eq_spec() -> bool {
        true
    }

    open spec fn eq_spec(&self, other: &Self) -> bool {
        self@ == other@
    }
}

} // verus!
