//! Concrete type descriptors and the data an extension family computes.
//!
//! A family answers a specialization request with [`TypeData`]: storage size,
//! capability flags and the member layout.  The framework wraps that into a
//! [`ConcreteTypeInfo`] carrying the full [`LongId`], after validating the
//! structural invariants of composites (see [`spec_validate_type_data`]).

use vstd::prelude::*;

use crate::error::RegistryError;
use crate::error::SpecializationError;
use crate::ids::ConcreteTypeId;
use crate::ids::GenericId;
use crate::args::type_ids_view;
use crate::context::SpecializationContext;
use crate::program::GenericArg;
use crate::program::GenericArgView;
use crate::program::LongId;
use crate::program::LongIdView;
use crate::program::args_eq;
use crate::program::args_view;
use crate::program::clone_args;
use crate::program::long_id_view;

verus! {

/// What an extension family computes for a concrete type: the number of VM
/// memory cells a value occupies, its capability flags, and the ordered
/// member layout (empty for non-composite types).
#[derive(Debug)]
pub struct TypeData {
    pub storage_size: usize,
    pub duplicatable: bool,
    pub droppable: bool,
    pub storable: bool,
    pub members: Vec<ConcreteTypeId>,
}

/// The mathematical value of a [`TypeData`].
#[verifier::ext_equal]
pub struct TypeDataView {
    pub storage_size: nat,
    pub duplicatable: bool,
    pub droppable: bool,
    pub storable: bool,
    pub members: Seq<Seq<char>>,
}

impl View for TypeData {
    type V = TypeDataView;

    open spec fn view(&self) -> TypeDataView {
        TypeDataView {
            storage_size: self.storage_size as nat,
            duplicatable: self.duplicatable,
            droppable: self.droppable,
            storable: self.storable,
            members: type_ids_view(self.members@),
        }
    }
}

/// The fully resolved descriptor of a concrete type: the identity it was
/// specialized from together with the family's validated data.
#[derive(Debug)]
pub struct ConcreteTypeInfo {
    pub long_id: LongId,
    pub storage_size: usize,
    pub duplicatable: bool,
    pub droppable: bool,
    pub storable: bool,
    pub members: Vec<ConcreteTypeId>,
}

/// The mathematical value of a [`ConcreteTypeInfo`].
#[verifier::ext_equal]
pub struct ConcreteTypeInfoView {
    pub long_id: LongIdView,
    pub storage_size: nat,
    pub duplicatable: bool,
    pub droppable: bool,
    pub storable: bool,
    pub members: Seq<Seq<char>>,
}

impl View for ConcreteTypeInfo {
    type V = ConcreteTypeInfoView;

    open spec fn view(&self) -> ConcreteTypeInfoView {
        ConcreteTypeInfoView {
            long_id: self.long_id@,
            storage_size: self.storage_size as nat,
            duplicatable: self.duplicatable,
            droppable: self.droppable,
            storable: self.storable,
            members: type_ids_view(self.members@),
        }
    }
}

/// Clones a list of type ids, preserving its views.
pub fn clone_type_ids(ids: &Vec<ConcreteTypeId>) -> (r: Vec<ConcreteTypeId>)
    ensures
        type_ids_view(r@) == type_ids_view(ids@),
{
    let mut out: Vec<ConcreteTypeId> = Vec::new();
    let mut i: usize = 0;
    while i < ids.len()
        invariant
            i <= ids.len(),
            out@.len() == i,
            forall|j: int| 0 <= j < i ==> out@[j]@ == ids@[j]@,
        decreases ids.len() - i,
    {
        out.push(ids[i].clone());
        i = i + 1;
    }
    proof {
        assert(type_ids_view(out@) =~= type_ids_view(ids@));
    }
    out
}

impl Clone for TypeData {
    fn clone(&self) -> (r: Self)
        ensures
            r@ == self@,
    {
        let r = TypeData {
            storage_size: self.storage_size,
            duplicatable: self.duplicatable,
            droppable: self.droppable,
            storable: self.storable,
            members: clone_type_ids(&self.members),
        };
        proof {
            assert(r@ =~= self@);
        }
        r
    }
}

impl Clone for ConcreteTypeInfo {
    fn clone(&self) -> (r: Self)
        ensures
            r@ == self@,
    {
        let r = ConcreteTypeInfo {
            long_id: self.long_id.clone(),
            storage_size: self.storage_size,
            duplicatable: self.duplicatable,
            droppable: self.droppable,
            storable: self.storable,
            members: clone_type_ids(&self.members),
        };
        proof {
            assert(r@ =~= self@);
        }
        r
    }
}

/// One extension family of generic types.  `spec_specialize` is the family's
/// whole behavior as a mathematical function of the session context and the
/// argument list; the executable `specialize` must agree with it, which makes
/// every family deterministic by construction.
pub trait SpecializeType: Sized {
    /// The family's specialization outcome as a pure function.
    spec fn spec_specialize(
        &self,
        ctx: Map<Seq<char>, ConcreteTypeInfoView>,
        args: Seq<GenericArgView>,
    ) -> Result<TypeDataView, SpecializationError>;

    /// Computes the family's data for the given arguments, or the first
    /// error encountered.
    fn specialize(&self, ctx: &SpecializationContext, args: &Vec<GenericArg>) -> (r: Result<
        TypeData,
        SpecializationError,
    >)
        ensures
            (match r {
                Ok(data) => self.spec_specialize(ctx@, args_view(args@))
                    == Ok::<_, SpecializationError>(data@),
                Err(e) => self.spec_specialize(ctx@, args_view(args@))
                    == Err::<TypeDataView, _>(e),
            }),
    ;
}

/// The total storage size of a member list, each member looked up in the
/// context.  Meaningful once every member is known to resolve; validation
/// checks that first.
pub open spec fn spec_members_size(
    ctx: Map<Seq<char>, ConcreteTypeInfoView>,
    members: Seq<Seq<char>>,
) -> int
    decreases members.len(),
{
    if members.len() == 0 {
        0
    } else {
        spec_members_size(ctx, members.drop_last()) + ctx[members.last()].storage_size as int
    }
}

/// Whether every member resolves in the context.
pub open spec fn spec_members_resolve(
    ctx: Map<Seq<char>, ConcreteTypeInfoView>,
    members: Seq<Seq<char>>,
) -> bool {
    forall|j: int| 0 <= j < members.len() ==> ctx.contains_key(#[trigger] members[j])
}

/// Whether every member is duplicatable.  Meaningful once every member is
/// known to resolve.
pub open spec fn spec_members_all_dup(
    ctx: Map<Seq<char>, ConcreteTypeInfoView>,
    members: Seq<Seq<char>>,
) -> bool {
    forall|j: int| 0 <= j < members.len() ==> ctx[#[trigger] members[j]].duplicatable
}

/// Whether every member may be dropped.  Meaningful once every member is
/// known to resolve.
pub open spec fn spec_members_all_drop(
    ctx: Map<Seq<char>, ConcreteTypeInfoView>,
    members: Seq<Seq<char>>,
) -> bool {
    forall|j: int| 0 <= j < members.len() ==> ctx[#[trigger] members[j]].droppable
}

/// Whether every member may be stored.  Meaningful once every member is
/// known to resolve.
pub open spec fn spec_members_all_storable(
    ctx: Map<Seq<char>, ConcreteTypeInfoView>,
    members: Seq<Seq<char>>,
) -> bool {
    forall|j: int| 0 <= j < members.len() ==> ctx[#[trigger] members[j]].storable
}

/// The structural invariants the framework itself enforces on whatever a
/// family produced, before wrapping it into a [`ConcreteTypeInfo`]: a type
/// with no members is accepted as it stands (its storage size is the family's
/// business, and the degenerate empty composite has size zero by that rule);
/// a composite must have every member resolvable, a storage size equal to the
/// sum of the member sizes, and capability flags that propagate from the
/// members — it is duplicatable, or droppable, exactly when every member is.
pub open spec fn spec_validate_type_data(
    ctx: Map<Seq<char>, ConcreteTypeInfoView>,
    data: TypeDataView,
) -> Result<(), SpecializationError> {
    if data.members.len() == 0 {
        Ok(())
    } else if !spec_members_resolve(ctx, data.members) {
        Err(SpecializationError::MissingTypeInfo)
    } else if data.storage_size as int != spec_members_size(ctx, data.members)
        || data.duplicatable != spec_members_all_dup(ctx, data.members)
        || data.droppable != spec_members_all_drop(ctx, data.members) {
        Err(SpecializationError::InconsistentMembers)
    } else {
        Ok(())
    }
}

/// Checks the structural invariants of [`spec_validate_type_data`] against
/// the session context.
pub fn validate_type_data(ctx: &SpecializationContext, data: &TypeData) -> (r: Result<
    (),
    SpecializationError,
>)
    ensures
        r == spec_validate_type_data(ctx@, data@),
{
    let n = data.members.len();
    if n == 0 {
        return Ok(());
    }
    let ghost memv = type_ids_view(data.members@);
    let mut sum: u128 = 0;
    let mut all_dup: bool = true;
    let mut all_drop: bool = true;
    let mut i: usize = 0;
    while i < n
        invariant
            i <= n,
            n == data.members@.len(),
            memv == type_ids_view(data.members@),
            memv.len() == n,
            forall|j: int| 0 <= j < i ==> ctx@.contains_key(#[trigger] memv[j]),
            sum as int == spec_members_size(ctx@, memv.take(i as int)),
            sum as int <= i * (usize::MAX as int),
            all_dup == (forall|j: int| 0 <= j < i ==> ctx@[#[trigger] memv[j]].duplicatable),
            all_drop == (forall|j: int| 0 <= j < i ==> ctx@[#[trigger] memv[j]].droppable),
        decreases n - i,
    {
        proof {
            assert(memv[i as int] == data.members@[i as int]@);
        }
        match ctx.get_type_info(&data.members[i]) {
            None => {
                return Err(SpecializationError::MissingTypeInfo);
            },
            Some(info) => {
                proof {
                    assert(memv.take(i + 1).drop_last() =~= memv.take(i as int));
                    assert((i + 1) * (usize::MAX as int) == i * (usize::MAX as int) + (
                    usize::MAX as int)) by (nonlinear_arith);
                    assert((i + 1) * (usize::MAX as int) <= (n as int) * (usize::MAX as int))
                        by (nonlinear_arith)
                        requires
                            i + 1 <= n as int,
                    ;
                    assert((n as int) * (usize::MAX as int) <= (usize::MAX as int) * (
                    usize::MAX as int)) by (nonlinear_arith)
                        requires
                            0 <= n as int <= usize::MAX as int,
                    ;
                }
                sum = sum + (info.storage_size as u128);
                all_dup = all_dup && info.duplicatable;
                all_drop = all_drop && info.droppable;
            },
        }
        i = i + 1;
    }
    proof {
        assert(memv.take(n as int) =~= memv);
    }
    if !(sum == data.storage_size as u128) {
        return Err(SpecializationError::InconsistentMembers);
    }
    if !(all_dup == data.duplicatable) {
        return Err(SpecializationError::InconsistentMembers);
    }
    if !(all_drop == data.droppable) {
        return Err(SpecializationError::InconsistentMembers);
    }
    Ok(())
}

/// The dispatch table denoted by a registration list: each entry inserted in
/// order.  Registration rejects duplicates, so no entry ever shadows another.
pub open spec fn families_map<F>(s: Seq<(GenericId, F)>) -> Map<Seq<char>, F>
    decreases s.len(),
{
    if s.len() == 0 {
        Map::empty()
    } else {
        families_map(s.drop_last()).insert(s.last().0@, s.last().1)
    }
}

/// Entries whose names all differ from `k` do not affect what the dispatch
/// table says about `k`.
pub(crate) proof fn lemma_families_map_skip<F>(s: Seq<(GenericId, F)>, k: Seq<char>, i: int)
    requires
        0 <= i <= s.len(),
        forall|j: int| i <= j < s.len() ==> (#[trigger] s[j]).0@ != k,
    ensures
        families_map(s).contains_key(k) == families_map(s.take(i)).contains_key(k),
        families_map(s).contains_key(k) ==> families_map(s)[k] == families_map(s.take(i))[k],
    decreases s.len() - i,
{
    if i == s.len() {
        assert(s.take(i) =~= s);
    } else {
        lemma_families_map_skip(s.drop_last(), k, i);
        assert(s.drop_last().take(i) =~= s.take(i));
    }
}

/// Wraps validated family data into the descriptor of the concrete type with
/// the given identity.
pub open spec fn spec_wrap_type_data(
    id: Seq<char>,
    args: Seq<GenericArgView>,
    data: TypeDataView,
) -> ConcreteTypeInfoView {
    ConcreteTypeInfoView {
        long_id: long_id_view(id, args),
        storage_size: data.storage_size,
        duplicatable: data.duplicatable,
        droppable: data.droppable,
        storable: data.storable,
        members: data.members,
    }
}

/// The whole outcome of specializing a generic type, as a pure function of
/// the dispatch table, the context, the identifier and the arguments: an
/// unregistered identifier fails with `UnsupportedId`; otherwise the family's
/// outcome is propagated, and a success is structurally validated and wrapped
/// into a full descriptor.
pub open spec fn spec_specialize_type<F: SpecializeType>(
    families: Map<Seq<char>, F>,
    ctx: Map<Seq<char>, ConcreteTypeInfoView>,
    id: Seq<char>,
    args: Seq<GenericArgView>,
) -> Result<ConcreteTypeInfoView, SpecializationError> {
    if !families.contains_key(id) {
        Err(SpecializationError::UnsupportedId)
    } else {
        match families[id].spec_specialize(ctx, args) {
            Err(e) => Err(e),
            Ok(data) => match spec_validate_type_data(ctx, data) {
                Err(e) => Err(e),
                Ok(u) => Ok(spec_wrap_type_data(id, args, data)),
            },
        }
    }
}

/// The view of a type-specialization outcome.
pub open spec fn type_result_view(r: Result<ConcreteTypeInfo, SpecializationError>) -> Result<
    ConcreteTypeInfoView,
    SpecializationError,
> {
    match r {
        Ok(info) => Ok(info@),
        Err(e) => Err(e),
    }
}

/// The registry that concretizes generic types: a dispatch table from generic
/// identifiers to their extension families, and a memoization cache of the
/// descriptors produced so far, keyed by long id.
#[verifier::reject_recursive_types(F)]
pub struct TypeRegistry<F> {
    families: Vec<(GenericId, F)>,
    cache: Vec<(LongId, ConcreteTypeInfo)>,
}

impl<F: SpecializeType> TypeRegistry<F> {
    /// The dispatch table this registry holds.
    pub closed spec fn spec_families(&self) -> Map<Seq<char>, F> {
        families_map(self.families@)
    }

    /// The descriptors produced so far, in order of first production.
    pub closed spec fn descriptors(&self) -> Seq<(LongIdView, ConcreteTypeInfoView)> {
        self.cache@.map_values(|p: (LongId, ConcreteTypeInfo)| (p.0@, p.1@))
    }

    /// Whether a request with this long id has already been answered.
    pub open spec fn has_cached(&self, k: LongIdView) -> bool {
        exists|i: int| 0 <= i < self.descriptors().len() && (#[trigger] self.descriptors()[i]).0 == k
    }

    /// Every cached descriptor is exactly what specialization under `ctx`
    /// says for its key.  This is the registry's coherence with the session
    /// context: it holds vacuously of a fresh registry, every call under the
    /// same context preserves it, and it is what makes answering from the
    /// cache sound.
    pub open spec fn cache_ok(&self, ctx: Map<Seq<char>, ConcreteTypeInfoView>) -> bool {
        forall|i: int|
            0 <= i < self.descriptors().len() ==> spec_specialize_type(
                self.spec_families(),
                ctx,
                (#[trigger] self.descriptors()[i]).0.generic_id,
                self.descriptors()[i].0.args,
            ) == Ok::<_, SpecializationError>(self.descriptors()[i].1)
    }

    /// An empty registry: nothing dispatches, nothing is cached.
    pub fn new() -> (r: Self)
        ensures
            r.spec_families() == Map::<Seq<char>, F>::empty(),
            r.descriptors() == Seq::<(LongIdView, ConcreteTypeInfoView)>::empty(),
    {
        let r = TypeRegistry { families: Vec::new(), cache: Vec::new() };
        proof {
            assert(r.descriptors() =~= Seq::<(LongIdView, ConcreteTypeInfoView)>::empty());
        }
        r
    }

    /// Registers an extension family under a generic identifier, at session
    /// initialization (before anything is specialized).  Registering a second
    /// family under an identifier already taken is a framework-usage bug and
    /// is rejected, leaving the registry unchanged.
    pub fn register(&mut self, id: GenericId, family: F) -> (r: Result<(), RegistryError>)
        requires
            old(self).descriptors() == Seq::<(LongIdView, ConcreteTypeInfoView)>::empty(),
        ensures
            final(self).descriptors() == old(self).descriptors(),
            (match r {
                Ok(u) => !old(self).spec_families().contains_key(id@)
                    && final(self).spec_families() == old(self).spec_families().insert(id@, family),
                Err(e) => e == RegistryError::DuplicateId && old(self).spec_families().contains_key(
                    id@,
                ) && final(self).spec_families() == old(self).spec_families(),
            }),
    {
        let mut i: usize = self.families.len();
        while i > 0
            invariant
                i <= self.families@.len(),
                forall|j: int|
                    i <= j < self.families@.len() ==> (#[trigger] self.families@[j]).0@ != id@,
            decreases i,
        {
            i = i - 1;
            if self.families[i].0 == id {
                proof {
                    lemma_families_map_skip(self.families@, id@, i + 1);
                    assert(self.families@.take(i + 1).drop_last() =~= self.families@.take(i as int));
                    assert(self.families@.take(i + 1).last() == self.families@[i as int]);
                }
                return Err(RegistryError::DuplicateId);
            }
        }
        proof {
            lemma_families_map_skip(self.families@, id@, 0);
            assert(self.families@.take(0).len() == 0);
        }
        self.families.push((id, family));
        proof {
            assert(self.families@.drop_last() =~= old(self).families@);
        }
        Ok(())
    }

    /// Concretizes a generic type: answers from the cache when the long id
    /// has been asked before, and otherwise dispatches to the registered
    /// family, validates what it produced, caches and returns the descriptor.
    /// The outcome is always exactly [`spec_specialize_type`] of the request,
    /// and a request already answered performs no new computation and leaves
    /// the cache unchanged, so repeated requests are idempotent.
    pub fn specialize_type(
        &mut self,
        generic_id: &GenericId,
        args: &Vec<GenericArg>,
        ctx: &SpecializationContext,
    ) -> (r: Result<ConcreteTypeInfo, SpecializationError>)
        requires
            old(self).cache_ok(ctx@),
        ensures
            final(self).spec_families() == old(self).spec_families(),
            final(self).cache_ok(ctx@),
            type_result_view(r) == spec_specialize_type(
                old(self).spec_families(),
                ctx@,
                generic_id@,
                args_view(args@),
            ),
            old(self).has_cached(long_id_view(generic_id@, args_view(args@)))
                ==> final(self).descriptors() == old(self).descriptors(),
            r is Err ==> final(self).descriptors() == old(self).descriptors(),
            r is Ok ==> final(self).has_cached(long_id_view(generic_id@, args_view(args@))),
            (r is Ok && !old(self).has_cached(long_id_view(generic_id@, args_view(args@))))
                ==> final(self).descriptors() == old(self).descriptors().push(
                (long_id_view(generic_id@, args_view(args@)), type_result_view(r)->Ok_0),
            ),
    {
        let ghost k = long_id_view(generic_id@, args_view(args@));
        proof {
            assert(forall|j: int|
                0 <= j < self.cache@.len() ==> self.descriptors()[j] == (
                (#[trigger] self.cache@[j]).0@,
                self.cache@[j].1@,
                ));
        }
        let mut i: usize = 0;
        while i < self.cache.len()
            invariant
                i <= self.cache@.len(),
                forall|j: int| 0 <= j < i ==> (#[trigger] self.cache@[j]).0@ != k,
                old(self) == self,
                old(self).cache_ok(ctx@),
                k == long_id_view(generic_id@, args_view(args@)),
                forall|j: int|
                    0 <= j < self.cache@.len() ==> self.descriptors()[j] == (
                    (#[trigger] self.cache@[j]).0@,
                    self.cache@[j].1@,
                    ),
            decreases self.cache@.len() - i,
        {
            if self.cache[i].0.generic_id == *generic_id && args_eq(&self.cache[i].0.args, args) {
                proof {
                    assert(self.cache@[i as int].0@ =~= k);
                    assert(self.descriptors()[i as int].0 == k);
                }
                return Ok(self.cache[i].1.clone());
            }
            i = i + 1;
        }
        proof {
            assert(!self.has_cached(k)) by {
                if self.has_cached(k) {
                    let j = choose|j: int|
                        0 <= j < self.descriptors().len() && (#[trigger] self.descriptors()[j]).0
                            == k;
                    assert(self.cache@[j].0@ == k);
                }
            };
        }
        let mut i: usize = self.families.len();
        while i > 0
            invariant
                i <= self.families@.len(),
                forall|j: int|
                    i <= j < self.families@.len() ==> (#[trigger] self.families@[j]).0@
                        != generic_id@,
                old(self) == self,
                old(self).cache_ok(ctx@),
                !self.has_cached(k),
                k == long_id_view(generic_id@, args_view(args@)),
            decreases i,
        {
            i = i - 1;
            if self.families[i].0 == *generic_id {
                proof {
                    lemma_families_map_skip(self.families@, generic_id@, i + 1);
                    assert(self.families@.take(i + 1).drop_last() =~= self.families@.take(i as int));
                    assert(self.families@.take(i + 1).last() == self.families@[i as int]);
                }
                let data = match self.families[i].1.specialize(ctx, args) {
                    Ok(data) => data,
                    Err(e) => {
                        return Err(e);
                    },
                };
                match validate_type_data(ctx, &data) {
                    Err(e) => {
                        return Err(e);
                    },
                    Ok(u) => {},
                }
                let ghost dv = data@;
                let info = ConcreteTypeInfo {
                    long_id: LongId { generic_id: generic_id.clone(), args: clone_args(args) },
                    storage_size: data.storage_size,
                    duplicatable: data.duplicatable,
                    droppable: data.droppable,
                    storable: data.storable,
                    members: data.members,
                };
                proof {
                    assert(info@ =~= spec_wrap_type_data(generic_id@, args_view(args@), dv));
                }
                let key = info.long_id.clone();
                let out = info.clone();
                let ghost old_cache = self.cache@;
                self.cache.push((key, info));
                proof {
                    assert(self.cache@.drop_last() =~= old_cache);
                    assert(self.descriptors() =~= old(self).descriptors().push(
                        (k, spec_wrap_type_data(generic_id@, args_view(args@), dv)),
                    ));
                    assert(self.descriptors()[self.descriptors().len() - 1].0 == k);
                    assert forall|j: int| 0 <= j < self.descriptors().len() implies
                        spec_specialize_type(
                            self.spec_families(),
                            ctx@,
                            (#[trigger] self.descriptors()[j]).0.generic_id,
                            self.descriptors()[j].0.args,
                        ) == Ok::<_, SpecializationError>(self.descriptors()[j].1) by {
                        if j < self.descriptors().len() - 1 {
                            assert(self.descriptors()[j] == old(self).descriptors()[j]);
                        }
                    };
                }
                return Ok(out);
            }
        }
        proof {
            lemma_families_map_skip(self.families@, generic_id@, 0);
            assert(self.families@.take(0).len() == 0);
        }
        Err(SpecializationError::UnsupportedId)
    }

    /// Read-only access to every descriptor produced so far, keyed by its
    /// long id, for consumers that need a full-session view.
    pub fn produced(&self) -> (r: &Vec<(LongId, ConcreteTypeInfo)>)
        ensures
            r@.len() == self.descriptors().len(),
            forall|i: int|
                0 <= i < r@.len() ==> ((#[trigger] r@[i]).0@, r@[i].1@) == self.descriptors()[i],
    {
        &self.cache
    }
}

/// Determinism: the outcome of type specialization is a pure function of the
/// dispatch table, the context, the identifier and the argument list, so
/// structurally equal requests yield structurally equal outcomes.
pub proof fn lemma_specialize_type_deterministic<F: SpecializeType>(
    families: Map<Seq<char>, F>,
    ctx: Map<Seq<char>, ConcreteTypeInfoView>,
    g1: Seq<char>,
    g2: Seq<char>,
    a1: Seq<GenericArgView>,
    a2: Seq<GenericArgView>,
)
    requires
        g1 == g2,
        a1 == a2,
    ensures
        spec_specialize_type(families, ctx, g1, a1) == spec_specialize_type(families, ctx, g2, a2),
{
}

/// Idempotence: any two outcomes that the contract of
/// [`TypeRegistry::specialize_type`] permits for the same request are equal,
/// so asking twice returns the value-identical descriptor.
pub proof fn lemma_specialize_type_idempotent<F: SpecializeType>(
    families: Map<Seq<char>, F>,
    ctx: Map<Seq<char>, ConcreteTypeInfoView>,
    g: Seq<char>,
    args: Seq<GenericArgView>,
    r1: Result<ConcreteTypeInfo, SpecializationError>,
    r2: Result<ConcreteTypeInfo, SpecializationError>,
)
    requires
        type_result_view(r1) == spec_specialize_type(families, ctx, g, args),
        type_result_view(r2) == spec_specialize_type(families, ctx, g, args),
    ensures
        type_result_view(r1) == type_result_view(r2),
{
}

/// An unregistered generic identifier fails with `UnsupportedId`, whatever
/// arguments are supplied.
pub proof fn lemma_unknown_id_fails<F: SpecializeType>(
    families: Map<Seq<char>, F>,
    ctx: Map<Seq<char>, ConcreteTypeInfoView>,
    g: Seq<char>,
    args: Seq<GenericArgView>,
)
    requires
        !families.contains_key(g),
    ensures
        spec_specialize_type(families, ctx, g, args) == Err::<ConcreteTypeInfoView, _>(
            SpecializationError::UnsupportedId,
        ),
{
}

/// The composite laws: a successfully specialized type with members resolves
/// every member, its storage size is exactly the sum of the member sizes, and
/// it is duplicatable, or droppable, exactly when every member is.
pub proof fn lemma_composite_invariants<F: SpecializeType>(
    families: Map<Seq<char>, F>,
    ctx: Map<Seq<char>, ConcreteTypeInfoView>,
    g: Seq<char>,
    args: Seq<GenericArgView>,
    info: ConcreteTypeInfoView,
)
    requires
        spec_specialize_type(families, ctx, g, args) == Ok::<_, SpecializationError>(info),
        info.members.len() > 0,
    ensures
        spec_members_resolve(ctx, info.members),
        info.storage_size as int == spec_members_size(ctx, info.members),
        info.duplicatable == spec_members_all_dup(ctx, info.members),
        info.droppable == spec_members_all_drop(ctx, info.members),
{
}

} // verus!
