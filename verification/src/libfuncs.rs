//! Concrete libfunc descriptors and the registry that produces them.
//!
//! A generic libfunc specializes into a [`LibfuncSignature`] — the typed
//! inputs, the typed outputs of every branch, and how the allocation pointer
//! moves along each branch — plus a resource [`Cost`].  A family computes the
//! signature and the cost as two separate contractual pieces; the framework
//! assembles them, and itself validates that the signature has at least one
//! branch, that its fallthrough names a real branch, and that every concrete
//! type the signature references resolves in the session context (the
//! closure property).

use vstd::prelude::*;

use crate::error::RegistryError;
use crate::error::SpecializationError;
use crate::ids::ConcreteTypeId;
use crate::ids::GenericId;
use crate::args::type_ids_view;
use crate::context::SpecializationContext;
use crate::program::GenericArg;
use crate::program::GenericArgView;
use crate::program::LongId;
use crate::program::LongIdView;
use crate::program::args_eq;
use crate::program::args_view;
use crate::program::clone_args;
use crate::program::long_id_view;
use crate::types::ConcreteTypeInfoView;
use crate::types::clone_type_ids;
use crate::types::families_map;
use crate::types::lemma_families_map_skip;

verus! {

/// How the VM's allocation pointer advances along one branch: by a fixed
/// number of cells, by a finite but input-dependent amount, or unknowably.
#[derive(Clone, Copy, Debug, PartialEq, Eq, Structural)]
pub enum ApChange {
    Known(usize),
    Finite,
    Unknown,
}

/// How a libfunc is allowed to consume one parameter.
#[derive(Clone, Copy, Debug, PartialEq, Eq, Structural)]
pub enum ParamUsage {
    Deferred,
    AddConst,
    Regular,
}

/// The resource-cost contribution of one concrete libfunc, in VM steps.
/// Families may scale it by resolved storage sizes.
#[derive(Clone, Copy, Debug, PartialEq, Eq, Structural)]
pub struct Cost {
    pub steps: u64,
}

/// One typed input of a libfunc, with its allowed usage.
#[derive(Debug)]
pub struct ParamSignature {
    pub ty: ConcreteTypeId,
    pub usage: ParamUsage,
}

/// The mathematical value of a [`ParamSignature`].
#[verifier::ext_equal]
pub struct ParamSignatureView {
    pub ty: Seq<char>,
    pub usage: ParamUsage,
}

impl View for ParamSignature {
    type V = ParamSignatureView;

    open spec fn view(&self) -> ParamSignatureView {
        ParamSignatureView { ty: self.ty@, usage: self.usage }
    }
}

impl Clone for ParamSignature {
    fn clone(&self) -> (r: Self)
        ensures
            r@ == self@,
    {
        let r = ParamSignature { ty: self.ty.clone(), usage: self.usage };
        proof {
            assert(r@ =~= self@);
        }
        r
    }
}

/// The typed outputs of one branch target, with its allocation-pointer
/// behavior.
#[derive(Debug)]
pub struct BranchSignature {
    pub vars: Vec<ConcreteTypeId>,
    pub ap_change: ApChange,
}

/// The mathematical value of a [`BranchSignature`].
#[verifier::ext_equal]
pub struct BranchSignatureView {
    pub vars: Seq<Seq<char>>,
    pub ap_change: ApChange,
}

impl View for BranchSignature {
    type V = BranchSignatureView;

    open spec fn view(&self) -> BranchSignatureView {
        BranchSignatureView { vars: type_ids_view(self.vars@), ap_change: self.ap_change }
    }
}

impl Clone for BranchSignature {
    fn clone(&self) -> (r: Self)
        ensures
            r@ == self@,
    {
        let r = BranchSignature { vars: clone_type_ids(&self.vars), ap_change: self.ap_change };
        proof {
            assert(r@ =~= self@);
        }
        r
    }
}

/// The views of a parameter list.
pub open spec fn param_sigs_view(s: Seq<ParamSignature>) -> Seq<ParamSignatureView> {
    s.map_values(|p: ParamSignature| p@)
}

/// The views of a branch list.
pub open spec fn branch_sigs_view(s: Seq<BranchSignature>) -> Seq<BranchSignatureView> {
    s.map_values(|b: BranchSignature| b@)
}

/// The full signature of a concrete libfunc: its typed inputs, one
/// [`BranchSignature`] per possible branch target, and which branch, if any,
/// falls through to the next instruction.
#[derive(Debug)]
pub struct LibfuncSignature {
    pub param_signatures: Vec<ParamSignature>,
    pub branch_signatures: Vec<BranchSignature>,
    pub fallthrough: Option<usize>,
}

/// The mathematical value of a [`LibfuncSignature`].
#[verifier::ext_equal]
pub struct LibfuncSignatureView {
    pub param_signatures: Seq<ParamSignatureView>,
    pub branch_signatures: Seq<BranchSignatureView>,
    pub fallthrough: Option<usize>,
}

impl View for LibfuncSignature {
    type V = LibfuncSignatureView;

    open spec fn view(&self) -> LibfuncSignatureView {
        LibfuncSignatureView {
            param_signatures: param_sigs_view(self.param_signatures@),
            branch_signatures: branch_sigs_view(self.branch_signatures@),
            fallthrough: self.fallthrough,
        }
    }
}

/// Clones a parameter list, preserving its views.
fn clone_param_sigs(params: &Vec<ParamSignature>) -> (r: Vec<ParamSignature>)
    ensures
        param_sigs_view(r@) == param_sigs_view(params@),
{
    let mut out: Vec<ParamSignature> = Vec::new();
    let mut i: usize = 0;
    while i < params.len()
        invariant
            i <= params.len(),
            out@.len() == i,
            forall|j: int| 0 <= j < i ==> out@[j]@ == params@[j]@,
        decreases params.len() - i,
    {
        out.push(params[i].clone());
        i = i + 1;
    }
    proof {
        assert(param_sigs_view(out@) =~= param_sigs_view(params@));
    }
    out
}

/// Clones a branch list, preserving its views.
fn clone_branch_sigs(branches: &Vec<BranchSignature>) -> (r: Vec<BranchSignature>)
    ensures
        branch_sigs_view(r@) == branch_sigs_view(branches@),
{
    let mut out: Vec<BranchSignature> = Vec::new();
    let mut i: usize = 0;
    while i < branches.len()
        invariant
            i <= branches.len(),
            out@.len() == i,
            forall|j: int| 0 <= j < i ==> out@[j]@ == branches@[j]@,
        decreases branches.len() - i,
    {
        out.push(branches[i].clone());
        i = i + 1;
    }
    proof {
        assert(branch_sigs_view(out@) =~= branch_sigs_view(branches@));
    }
    out
}

impl Clone for LibfuncSignature {
    fn clone(&self) -> (r: Self)
        ensures
            r@ == self@,
    {
        let r = LibfuncSignature {
            param_signatures: clone_param_sigs(&self.param_signatures),
            branch_signatures: clone_branch_sigs(&self.branch_signatures),
            fallthrough: self.fallthrough,
        };
        proof {
            assert(r@ =~= self@);
        }
        r
    }
}

/// The fully resolved descriptor of a concrete libfunc: the identity it was
/// specialized from, its validated signature, and its resource cost.
#[derive(Debug)]
pub struct ConcreteLibfuncDescriptor {
    pub long_id: LongId,
    pub signature: LibfuncSignature,
    pub cost: Cost,
}

/// The mathematical value of a [`ConcreteLibfuncDescriptor`].
#[verifier::ext_equal]
pub struct ConcreteLibfuncDescriptorView {
    pub long_id: LongIdView,
    pub signature: LibfuncSignatureView,
    pub cost: Cost,
}

impl View for ConcreteLibfuncDescriptor {
    type V = ConcreteLibfuncDescriptorView;

    open spec fn view(&self) -> ConcreteLibfuncDescriptorView {
        ConcreteLibfuncDescriptorView {
            long_id: self.long_id@,
            signature: self.signature@,
            cost: self.cost,
        }
    }
}

impl Clone for ConcreteLibfuncDescriptor {
    fn clone(&self) -> (r: Self)
        ensures
            r@ == self@,
    {
        let r = ConcreteLibfuncDescriptor {
            long_id: self.long_id.clone(),
            signature: self.signature.clone(),
            cost: self.cost,
        };
        proof {
            assert(r@ =~= self@);
        }
        r
    }
}

/// One extension family of generic libfuncs, in two contractual pieces: the
/// signature alone (computable for signature-inspection tools, and performing
/// no cost computation), and the cost.  Both are pinned to pure functions of
/// the context and the arguments, so every family is deterministic by
/// construction, and full specialization is their assembly.
pub trait SpecializeLibfunc: Sized {
    /// The family's signature outcome as a pure function.
    spec fn spec_signature(
        &self,
        ctx: Map<Seq<char>, ConcreteTypeInfoView>,
        args: Seq<GenericArgView>,
    ) -> Result<LibfuncSignatureView, SpecializationError>;

    /// The family's cost outcome as a pure function.
    spec fn spec_cost(
        &self,
        ctx: Map<Seq<char>, ConcreteTypeInfoView>,
        args: Seq<GenericArgView>,
    ) -> Result<Cost, SpecializationError>;

    /// Computes the signature for the given arguments, or the first error
    /// encountered.
    fn specialize_signature(&self, ctx: &SpecializationContext, args: &Vec<GenericArg>) -> (r:
        Result<LibfuncSignature, SpecializationError>)
        ensures
            (match r {
                Ok(sig) => self.spec_signature(ctx@, args_view(args@))
                    == Ok::<_, SpecializationError>(sig@),
                Err(e) => self.spec_signature(ctx@, args_view(args@))
                    == Err::<LibfuncSignatureView, _>(e),
            }),
    ;

    /// Computes the resource cost for the given arguments, or the first
    /// error encountered.
    fn specialize_cost(&self, ctx: &SpecializationContext, args: &Vec<GenericArg>) -> (r: Result<
        Cost,
        SpecializationError,
    >)
        ensures
            r == self.spec_cost(ctx@, args_view(args@)),
    ;
}

/// The closure property of a signature: every concrete type it references —
/// in a parameter or in any branch variable — resolves in the context.
pub open spec fn spec_sig_types_resolve(
    ctx: Map<Seq<char>, ConcreteTypeInfoView>,
    sig: LibfuncSignatureView,
) -> bool {
    (forall|i: int|
        0 <= i < sig.param_signatures.len() ==> ctx.contains_key(
            (#[trigger] sig.param_signatures[i]).ty,
        )) && (forall|b: int, i: int|
        0 <= b < sig.branch_signatures.len() && 0 <= i < sig.branch_signatures[b].vars.len()
            ==> ctx.contains_key(#[trigger] sig.branch_signatures[b].vars[i]))
}

/// Whether the fallthrough, if present, names a real branch.
pub open spec fn spec_fallthrough_ok(sig: LibfuncSignatureView) -> bool {
    match sig.fallthrough {
        None => true,
        Some(f) => (f as int) < sig.branch_signatures.len(),
    }
}

/// The structural invariants the framework itself enforces on whatever
/// signature a family produced: at least one branch, a fallthrough that
/// names a real branch, and the closure property.
pub open spec fn spec_validate_signature(
    ctx: Map<Seq<char>, ConcreteTypeInfoView>,
    sig: LibfuncSignatureView,
) -> Result<(), SpecializationError> {
    if sig.branch_signatures.len() == 0 || !spec_fallthrough_ok(sig) {
        Err(SpecializationError::MalformedSignature)
    } else if !spec_sig_types_resolve(ctx, sig) {
        Err(SpecializationError::MissingTypeInfo)
    } else {
        Ok(())
    }
}

/// Checks the structural invariants of [`spec_validate_signature`] against
/// the session context.
pub fn validate_signature(ctx: &SpecializationContext, sig: &LibfuncSignature) -> (r: Result<
    (),
    SpecializationError,
>)
    ensures
        r == spec_validate_signature(ctx@, sig@),
{
    if sig.branch_signatures.len() == 0 {
        return Err(SpecializationError::MalformedSignature);
    }
    match sig.fallthrough {
        Some(f) => {
            if f >= sig.branch_signatures.len() {
                return Err(SpecializationError::MalformedSignature);
            }
        },
        None => {},
    }
    let ghost sv = sig@;
    let mut i: usize = 0;
    while i < sig.param_signatures.len()
        invariant
            i <= sig.param_signatures@.len(),
            sv == sig@,
            sv.branch_signatures.len() > 0,
            spec_fallthrough_ok(sv),
            sv.param_signatures.len() == sig.param_signatures@.len(),
            forall|j: int|
                0 <= j < i ==> ctx@.contains_key((#[trigger] sv.param_signatures[j]).ty),
        decreases sig.param_signatures@.len() - i,
    {
        proof {
            assert(sv.param_signatures[i as int] == sig.param_signatures@[i as int]@);
        }
        if !ctx.contains_type(&sig.param_signatures[i].ty) {
            proof {
                assert(!ctx@.contains_key((sv.param_signatures[i as int]).ty));
                assert(!spec_sig_types_resolve(ctx@, sv));
            }
            return Err(SpecializationError::MissingTypeInfo);
        }
        i = i + 1;
    }
    let mut b: usize = 0;
    while b < sig.branch_signatures.len()
        invariant
            b <= sig.branch_signatures@.len(),
            sv == sig@,
            sv.branch_signatures.len() > 0,
            spec_fallthrough_ok(sv),
            sv.param_signatures.len() == sig.param_signatures@.len(),
            forall|j: int|
                0 <= j < sv.param_signatures.len() ==> ctx@.contains_key(
                    (#[trigger] sv.param_signatures[j]).ty,
                ),
            sv.branch_signatures.len() == sig.branch_signatures@.len(),
            forall|b2: int, j: int|
                0 <= b2 < b && 0 <= j < sv.branch_signatures[b2].vars.len() ==> ctx@.contains_key(
                    #[trigger] sv.branch_signatures[b2].vars[j],
                ),
        decreases sig.branch_signatures@.len() - b,
    {
        proof {
            assert(sv.branch_signatures[b as int] == sig.branch_signatures@[b as int]@);
        }
        let branch = &sig.branch_signatures[b];
        let mut i: usize = 0;
        while i < branch.vars.len()
            invariant
                i <= branch.vars@.len(),
                sv == sig@,
                branch@ == sv.branch_signatures[b as int],
                b < sv.branch_signatures.len(),
                spec_fallthrough_ok(sv),
                forall|j: int|
                    0 <= j < sv.param_signatures.len() ==> ctx@.contains_key(
                        (#[trigger] sv.param_signatures[j]).ty,
                    ),
                sv.branch_signatures[b as int].vars.len() == branch.vars@.len(),
                forall|j: int|
                    0 <= j < i ==> ctx@.contains_key(
                        #[trigger] sv.branch_signatures[b as int].vars[j],
                    ),
            decreases branch.vars@.len() - i,
        {
            proof {
                assert(sv.branch_signatures[b as int].vars[i as int] == branch.vars@[i as int]@);
            }
            if !ctx.contains_type(&branch.vars[i]) {
                proof {
                    assert(!ctx@.contains_key(sv.branch_signatures[b as int].vars[i as int]));
                    assert(!spec_sig_types_resolve(ctx@, sv));
                }
                return Err(SpecializationError::MissingTypeInfo);
            }
            i = i + 1;
        }
        b = b + 1;
    }
    Ok(())
}

/// Wraps a validated signature and a cost into the descriptor of the concrete
/// libfunc with the given identity.
pub open spec fn spec_wrap_libfunc(
    id: Seq<char>,
    args: Seq<GenericArgView>,
    sig: LibfuncSignatureView,
    cost: Cost,
) -> ConcreteLibfuncDescriptorView {
    ConcreteLibfuncDescriptorView { long_id: long_id_view(id, args), signature: sig, cost }
}

/// The whole outcome of specializing a generic libfunc, as a pure function of
/// the dispatch table, the context, the identifier and the arguments: an
/// unregistered identifier fails with `UnsupportedId`; otherwise the family's
/// signature is structurally validated, its cost is computed, and the two are
/// assembled into a full descriptor.
pub open spec fn spec_specialize_libfunc<F: SpecializeLibfunc>(
    families: Map<Seq<char>, F>,
    ctx: Map<Seq<char>, ConcreteTypeInfoView>,
    id: Seq<char>,
    args: Seq<GenericArgView>,
) -> Result<ConcreteLibfuncDescriptorView, SpecializationError> {
    if !families.contains_key(id) {
        Err(SpecializationError::UnsupportedId)
    } else {
        match families[id].spec_signature(ctx, args) {
            Err(e) => Err(e),
            Ok(sig) => match spec_validate_signature(ctx, sig) {
                Err(e) => Err(e),
                Ok(u) => match families[id].spec_cost(ctx, args) {
                    Err(e) => Err(e),
                    Ok(cost) => Ok(spec_wrap_libfunc(id, args, sig, cost)),
                },
            },
        }
    }
}

/// The view of a libfunc-specialization outcome.
pub open spec fn libfunc_result_view(
    r: Result<ConcreteLibfuncDescriptor, SpecializationError>,
) -> Result<ConcreteLibfuncDescriptorView, SpecializationError> {
    match r {
        Ok(d) => Ok(d@),
        Err(e) => Err(e),
    }
}

/// The registry that concretizes generic libfuncs: a dispatch table from
/// generic identifiers to their extension families, and a memoization cache
/// of the descriptors produced so far, keyed by long id.
#[verifier::reject_recursive_types(F)]
pub struct LibfuncRegistry<F> {
    families: Vec<(GenericId, F)>,
    cache: Vec<(LongId, ConcreteLibfuncDescriptor)>,
}

impl<F: SpecializeLibfunc> LibfuncRegistry<F> {
    /// The dispatch table this registry holds.
    pub closed spec fn spec_families(&self) -> Map<Seq<char>, F> {
        families_map(self.families@)
    }

    /// The descriptors produced so far, in order of first production.
    pub closed spec fn descriptors(&self) -> Seq<(LongIdView, ConcreteLibfuncDescriptorView)> {
        self.cache@.map_values(|p: (LongId, ConcreteLibfuncDescriptor)| (p.0@, p.1@))
    }

    /// Whether a request with this long id has already been answered.
    pub open spec fn has_cached(&self, k: LongIdView) -> bool {
        exists|i: int| 0 <= i < self.descriptors().len() && (#[trigger] self.descriptors()[i]).0 == k
    }

    /// Every cached descriptor is exactly what specialization under `ctx`
    /// says for its key; see [`crate::types::TypeRegistry::cache_ok`].
    pub open spec fn cache_ok(&self, ctx: Map<Seq<char>, ConcreteTypeInfoView>) -> bool {
        forall|i: int|
            0 <= i < self.descriptors().len() ==> spec_specialize_libfunc(
                self.spec_families(),
                ctx,
                (#[trigger] self.descriptors()[i]).0.generic_id,
                self.descriptors()[i].0.args,
            ) == Ok::<_, SpecializationError>(self.descriptors()[i].1)
    }

    /// An empty registry: nothing dispatches, nothing is cached.
    pub fn new() -> (r: Self)
        ensures
            r.spec_families() == Map::<Seq<char>, F>::empty(),
            r.descriptors() == Seq::<(LongIdView, ConcreteLibfuncDescriptorView)>::empty(),
    {
        let r = LibfuncRegistry { families: Vec::new(), cache: Vec::new() };
        proof {
            assert(r.descriptors() =~= Seq::<(LongIdView, ConcreteLibfuncDescriptorView)>::empty());
        }
        r
    }

    /// Registers an extension family under a generic identifier, at session
    /// initialization (before anything is specialized).  Registering a second
    /// family under an identifier already taken is a framework-usage bug and
    /// is rejected, leaving the registry unchanged.
    pub fn register(&mut self, id: GenericId, family: F) -> (r: Result<(), RegistryError>)
        requires
            old(self).descriptors() == Seq::<(LongIdView, ConcreteLibfuncDescriptorView)>::empty(),
        ensures
            final(self).descriptors() == old(self).descriptors(),
            (match r {
                Ok(u) => !old(self).spec_families().contains_key(id@)
                    && final(self).spec_families() == old(self).spec_families().insert(id@, family),
                Err(e) => e == RegistryError::DuplicateId && old(self).spec_families().contains_key(
                    id@,
                ) && final(self).spec_families() == old(self).spec_families(),
            }),
    {
        let mut i: usize = self.families.len();
        while i > 0
            invariant
                i <= self.families@.len(),
                forall|j: int|
                    i <= j < self.families@.len() ==> (#[trigger] self.families@[j]).0@ != id@,
            decreases i,
        {
            i = i - 1;
            if self.families[i].0 == id {
                proof {
                    lemma_families_map_skip(self.families@, id@, i + 1);
                    assert(self.families@.take(i + 1).drop_last() =~= self.families@.take(i as int));
                    assert(self.families@.take(i + 1).last() == self.families@[i as int]);
                }
                return Err(RegistryError::DuplicateId);
            }
        }
        proof {
            lemma_families_map_skip(self.families@, id@, 0);
            assert(self.families@.take(0).len() == 0);
        }
        self.families.push((id, family));
        proof {
            assert(self.families@.drop_last() =~= old(self).families@);
        }
        Ok(())
    }

    /// Concretizes a generic libfunc: answers from the cache when the long id
    /// has been asked before, and otherwise dispatches to the registered
    /// family, validates the signature it produced, computes the cost, caches
    /// and returns the descriptor.  The outcome is always exactly
    /// [`spec_specialize_libfunc`] of the request, and a request already
    /// answered performs no new computation and leaves the cache unchanged,
    /// so repeated requests are idempotent.
    pub fn specialize_libfunc(
        &mut self,
        generic_id: &GenericId,
        args: &Vec<GenericArg>,
        ctx: &SpecializationContext,
    ) -> (r: Result<ConcreteLibfuncDescriptor, SpecializationError>)
        requires
            old(self).cache_ok(ctx@),
        ensures
            final(self).spec_families() == old(self).spec_families(),
            final(self).cache_ok(ctx@),
            libfunc_result_view(r) == spec_specialize_libfunc(
                old(self).spec_families(),
                ctx@,
                generic_id@,
                args_view(args@),
            ),
            old(self).has_cached(long_id_view(generic_id@, args_view(args@)))
                ==> final(self).descriptors() == old(self).descriptors(),
            r is Err ==> final(self).descriptors() == old(self).descriptors(),
            r is Ok ==> final(self).has_cached(long_id_view(generic_id@, args_view(args@))),
            (r is Ok && !old(self).has_cached(long_id_view(generic_id@, args_view(args@))))
                ==> final(self).descriptors() == old(self).descriptors().push(
                (long_id_view(generic_id@, args_view(args@)), libfunc_result_view(r)->Ok_0),
            ),
    {
        let ghost k = long_id_view(generic_id@, args_view(args@));
        proof {
            assert(forall|j: int|
                0 <= j < self.cache@.len() ==> self.descriptors()[j] == (
                (#[trigger] self.cache@[j]).0@,
                self.cache@[j].1@,
                ));
        }
        let mut i: usize = 0;
        while i < self.cache.len()
            invariant
                i <= self.cache@.len(),
                forall|j: int| 0 <= j < i ==> (#[trigger] self.cache@[j]).0@ != k,
                old(self) == self,
                old(self).cache_ok(ctx@),
                k == long_id_view(generic_id@, args_view(args@)),
                forall|j: int|
                    0 <= j < self.cache@.len() ==> self.descriptors()[j] == (
                    (#[trigger] self.cache@[j]).0@,
                    self.cache@[j].1@,
                    ),
            decreases self.cache@.len() - i,
        {
            if self.cache[i].0.generic_id == *generic_id && args_eq(&self.cache[i].0.args, args) {
                proof {
                    assert(self.cache@[i as int].0@ =~= k);
                    assert(self.descriptors()[i as int].0 == k);
                }
                return Ok(self.cache[i].1.clone());
            }
            i = i + 1;
        }
        proof {
            assert(!self.has_cached(k)) by {
                if self.has_cached(k) {
                    let j = choose|j: int|
                        0 <= j < self.descriptors().len() && (#[trigger] self.descriptors()[j]).0
                            == k;
                    assert(self.cache@[j].0@ == k);
                }
            };
        }
        let mut i: usize = self.families.len();
        while i > 0
            invariant
                i <= self.families@.len(),
                forall|j: int|
                    i <= j < self.families@.len() ==> (#[trigger] self.families@[j]).0@
                        != generic_id@,
                old(self) == self,
                old(self).cache_ok(ctx@),
                !self.has_cached(k),
                k == long_id_view(generic_id@, args_view(args@)),
            decreases i,
        {
            i = i - 1;
            if self.families[i].0 == *generic_id {
                proof {
                    lemma_families_map_skip(self.families@, generic_id@, i + 1);
                    assert(self.families@.take(i + 1).drop_last() =~= self.families@.take(i as int));
                    assert(self.families@.take(i + 1).last() == self.families@[i as int]);
                }
                let sig = match self.families[i].1.specialize_signature(ctx, args) {
                    Ok(sig) => sig,
                    Err(e) => {
                        return Err(e);
                    },
                };
                match validate_signature(ctx, &sig) {
                    Err(e) => {
                        return Err(e);
                    },
                    Ok(u) => {},
                }
                let cost = match self.families[i].1.specialize_cost(ctx, args) {
                    Ok(cost) => cost,
                    Err(e) => {
                        return Err(e);
                    },
                };
                let ghost sigv = sig@;
                let desc = ConcreteLibfuncDescriptor {
                    long_id: LongId { generic_id: generic_id.clone(), args: clone_args(args) },
                    signature: sig,
                    cost,
                };
                proof {
                    assert(desc@ =~= spec_wrap_libfunc(generic_id@, args_view(args@), sigv, cost));
                }
                let key = desc.long_id.clone();
                let out = desc.clone();
                let ghost old_cache = self.cache@;
                self.cache.push((key, desc));
                proof {
                    assert(self.cache@.drop_last() =~= old_cache);
                    assert(self.descriptors() =~= old(self).descriptors().push(
                        (k, spec_wrap_libfunc(generic_id@, args_view(args@), sigv, cost)),
                    ));
                    assert(self.descriptors()[self.descriptors().len() - 1].0 == k);
                    assert forall|j: int| 0 <= j < self.descriptors().len() implies
                        spec_specialize_libfunc(
                            self.spec_families(),
                            ctx@,
                            (#[trigger] self.descriptors()[j]).0.generic_id,
                            self.descriptors()[j].0.args,
                        ) == Ok::<_, SpecializationError>(self.descriptors()[j].1) by {
                        if j < self.descriptors().len() - 1 {
                            assert(self.descriptors()[j] == old(self).descriptors()[j]);
                        }
                    };
                }
                return Ok(out);
            }
        }
        proof {
            lemma_families_map_skip(self.families@, generic_id@, 0);
            assert(self.families@.take(0).len() == 0);
        }
        Err(SpecializationError::UnsupportedId)
    }

    /// Read-only access to every descriptor produced so far, keyed by its
    /// long id, for consumers that need a full-session view.
    pub fn produced(&self) -> (r: &Vec<(LongId, ConcreteLibfuncDescriptor)>)
        ensures
            r@.len() == self.descriptors().len(),
            forall|i: int|
                0 <= i < r@.len() ==> ((#[trigger] r@[i]).0@, r@[i].1@) == self.descriptors()[i],
    {
        &self.cache
    }
}

/// Determinism: the outcome of libfunc specialization is a pure function of
/// the dispatch table, the context, the identifier and the argument list, so
/// structurally equal requests yield structurally equal outcomes.
pub proof fn lemma_specialize_libfunc_deterministic<F: SpecializeLibfunc>(
    families: Map<Seq<char>, F>,
    ctx: Map<Seq<char>, ConcreteTypeInfoView>,
    g1: Seq<char>,
    g2: Seq<char>,
    a1: Seq<GenericArgView>,
    a2: Seq<GenericArgView>,
)
    requires
        g1 == g2,
        a1 == a2,
    ensures
        spec_specialize_libfunc(families, ctx, g1, a1) == spec_specialize_libfunc(
            families,
            ctx,
            g2,
            a2,
        ),
{
}

/// Idempotence: any two outcomes that the contract of
/// [`LibfuncRegistry::specialize_libfunc`] permits for the same request are
/// equal, so asking twice returns the value-identical descriptor.
pub proof fn lemma_specialize_libfunc_idempotent<F: SpecializeLibfunc>(
    families: Map<Seq<char>, F>,
    ctx: Map<Seq<char>, ConcreteTypeInfoView>,
    g: Seq<char>,
    args: Seq<GenericArgView>,
    r1: Result<ConcreteLibfuncDescriptor, SpecializationError>,
    r2: Result<ConcreteLibfuncDescriptor, SpecializationError>,
)
    requires
        libfunc_result_view(r1) == spec_specialize_libfunc(families, ctx, g, args),
        libfunc_result_view(r2) == spec_specialize_libfunc(families, ctx, g, args),
    ensures
        libfunc_result_view(r1) == libfunc_result_view(r2),
{
}

/// An unregistered generic identifier fails with `UnsupportedId`, whatever
/// arguments are supplied.
pub proof fn lemma_unknown_libfunc_fails<F: SpecializeLibfunc>(
    families: Map<Seq<char>, F>,
    ctx: Map<Seq<char>, ConcreteTypeInfoView>,
    g: Seq<char>,
    args: Seq<GenericArgView>,
)
    requires
        !families.contains_key(g),
    ensures
        spec_specialize_libfunc(families, ctx, g, args) == Err::<ConcreteLibfuncDescriptorView, _>(
            SpecializationError::UnsupportedId,
        ),
{
}

/// The closure property: every concrete type referenced anywhere in the
/// signature of a successfully specialized libfunc — as a parameter type or
/// as a branch variable — itself resolves in the context, i.e. was itself
/// successfully specialized; and the fallthrough, if present, names a real
/// branch of a non-empty branch list.
pub proof fn lemma_libfunc_closure<F: SpecializeLibfunc>(
    families: Map<Seq<char>, F>,
    ctx: Map<Seq<char>, ConcreteTypeInfoView>,
    g: Seq<char>,
    args: Seq<GenericArgView>,
    d: ConcreteLibfuncDescriptorView,
)
    requires
        spec_specialize_libfunc(families, ctx, g, args) == Ok::<_, SpecializationError>(d),
    ensures
        spec_sig_types_resolve(ctx, d.signature),
        d.signature.branch_signatures.len() > 0,
        spec_fallthrough_ok(d.signature),
{
}

} // verus!
