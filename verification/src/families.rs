//! The core catalog of extension families.
//!
//! The framework itself knows no family; these are the implementations this
//! crate ships and registers under their identifiers at session
//! initialization.  Adding a family means adding an implementation and one
//! registration — the registries' internals are never touched.
//!
//! Types: a box (a single cell pointing at a value of the inner type, never
//! silently copied, droppable exactly when the inner type is) and a struct
//! (a composite of any number of members, with size and capabilities derived
//! from them).  Libfuncs: dropping a value, duplicating a value, and storing
//! a value into a fresh temporary cell.

use vstd::prelude::*;

use crate::error::SpecializationError;
use crate::ids::ConcreteTypeId;
use crate::args::as_single_type;
use crate::args::as_type_list;
use crate::args::spec_single_type;
use crate::args::spec_type_list;
use crate::args::type_ids_view;
use crate::context::SpecializationContext;
use crate::libfuncs::ApChange;
use crate::libfuncs::BranchSignature;
use crate::libfuncs::BranchSignatureView;
use crate::libfuncs::Cost;
use crate::libfuncs::LibfuncSignature;
use crate::libfuncs::LibfuncSignatureView;
use crate::libfuncs::ParamSignature;
use crate::libfuncs::ParamSignatureView;
use crate::libfuncs::ParamUsage;
use crate::libfuncs::SpecializeLibfunc;
use crate::program::GenericArg;
use crate::program::GenericArgView;
use crate::program::args_view;
use crate::types::ConcreteTypeInfoView;
use crate::types::SpecializeType;
use crate::types::TypeData;
use crate::types::TypeDataView;
use crate::types::spec_members_all_drop;
use crate::types::spec_members_all_dup;
use crate::types::spec_members_all_storable;
use crate::types::spec_members_resolve;
use crate::types::spec_members_size;

verus! {

/// What the box family produces for an inner type: one cell, never silently
/// copied, droppable exactly when the inner type is, no members.
pub open spec fn spec_box_data(inner: ConcreteTypeInfoView) -> TypeDataView {
    TypeDataView {
        storage_size: 1,
        duplicatable: false,
        droppable: inner.droppable,
        storable: true,
        members: Seq::empty(),
    }
}

/// The box family's outcome: exactly one `Type` argument, which must resolve
/// in the context.
pub open spec fn spec_box_specialize(
    ctx: Map<Seq<char>, ConcreteTypeInfoView>,
    args: Seq<GenericArgView>,
) -> Result<TypeDataView, SpecializationError> {
    match spec_single_type(args) {
        Err(e) => Err(e),
        Ok(ty) => if !ctx.contains_key(ty) {
            Err(SpecializationError::MissingTypeInfo)
        } else {
            Ok(spec_box_data(ctx[ty]))
        },
    }
}

/// Specializes a box over the single inner type named by the arguments.
pub fn box_specialize(ctx: &SpecializationContext, args: &Vec<GenericArg>) -> (r: Result<
    TypeData,
    SpecializationError,
>)
    ensures
        (match r {
            Ok(data) => spec_box_specialize(ctx@, args_view(args@)) == Ok::<
                _,
                SpecializationError,
            >(data@),
            Err(e) => spec_box_specialize(ctx@, args_view(args@)) == Err::<TypeDataView, _>(e),
        }),
{
    let ty = match as_single_type(args.as_slice()) {
        Ok(ty) => ty,
        Err(e) => {
            return Err(e);
        },
    };
    match ctx.get_type_info(&ty) {
        None => Err(SpecializationError::MissingTypeInfo),
        Some(inner) => {
            let data = TypeData {
                storage_size: 1,
                duplicatable: false,
                droppable: inner.droppable,
                storable: true,
                members: Vec::new(),
            };
            proof {
                assert(data@ =~= spec_box_data(ctx@[ty@]));
            }
            Ok(data)
        },
    }
}

/// The struct family's outcome: any number of `Type` arguments, all of which
/// must resolve; the composite's size is the sum of the member sizes (failing
/// when that sum does not fit a machine word), it is duplicatable, droppable
/// or storable exactly when every member is, and the empty struct has size
/// zero by the same sum.
pub open spec fn spec_struct_specialize(
    ctx: Map<Seq<char>, ConcreteTypeInfoView>,
    args: Seq<GenericArgView>,
) -> Result<TypeDataView, SpecializationError> {
    match spec_type_list(args) {
        Err(e) => Err(e),
        Ok(members) => if !spec_members_resolve(ctx, members) {
            Err(SpecializationError::MissingTypeInfo)
        } else if spec_members_size(ctx, members) > usize::MAX as int {
            Err(SpecializationError::StorageSizeOverflow)
        } else {
            Ok(
                TypeDataView {
                    storage_size: spec_members_size(ctx, members) as nat,
                    duplicatable: spec_members_all_dup(ctx, members),
                    droppable: spec_members_all_drop(ctx, members),
                    storable: spec_members_all_storable(ctx, members),
                    members,
                },
            )
        },
    }
}

/// Specializes a struct over the member types named by the arguments.
pub fn struct_specialize(ctx: &SpecializationContext, args: &Vec<GenericArg>) -> (r: Result<
    TypeData,
    SpecializationError,
>)
    ensures
        (match r {
            Ok(data) => spec_struct_specialize(ctx@, args_view(args@)) == Ok::<
                _,
                SpecializationError,
            >(data@),
            Err(e) => spec_struct_specialize(ctx@, args_view(args@)) == Err::<TypeDataView, _>(e),
        }),
{
    let members = match as_type_list(args.as_slice()) {
        Ok(members) => members,
        Err(e) => {
            return Err(e);
        },
    };
    let ghost memv = type_ids_view(members@);
    let n = members.len();
    let mut sum: u128 = 0;
    let mut all_dup: bool = true;
    let mut all_drop: bool = true;
    let mut all_storable: bool = true;
    let mut i: usize = 0;
    while i < n
        invariant
            i <= n,
            n == members@.len(),
            memv == type_ids_view(members@),
            memv.len() == n,
            spec_type_list(args_view(args@)) == Ok::<_, SpecializationError>(memv),
            forall|j: int| 0 <= j < i ==> ctx@.contains_key(#[trigger] memv[j]),
            sum as int == spec_members_size(ctx@, memv.take(i as int)),
            sum as int <= i * (usize::MAX as int),
            all_dup == (forall|j: int| 0 <= j < i ==> ctx@[#[trigger] memv[j]].duplicatable),
            all_drop == (forall|j: int| 0 <= j < i ==> ctx@[#[trigger] memv[j]].droppable),
            all_storable == (forall|j: int| 0 <= j < i ==> ctx@[#[trigger] memv[j]].storable),
        decreases n - i,
    {
        proof {
            assert(memv[i as int] == members@[i as int]@);
        }
        match ctx.get_type_info(&members[i]) {
            None => {
                return Err(SpecializationError::MissingTypeInfo);
            },
            Some(info) => {
                proof {
                    assert(memv.take(i + 1).drop_last() =~= memv.take(i as int));
                    assert((i + 1) * (usize::MAX as int) == i * (usize::MAX as int) + (
                    usize::MAX as int)) by (nonlinear_arith);
                    assert((i + 1) * (usize::MAX as int) <= (n as int) * (usize::MAX as int))
                        by (nonlinear_arith)
                        requires
                            i + 1 <= n as int,
                    ;
                    assert((n as int) * (usize::MAX as int) <= (usize::MAX as int) * (
                    usize::MAX as int)) by (nonlinear_arith)
                        requires
                            0 <= n as int <= usize::MAX as int,
                    ;
                }
                sum = sum + (info.storage_size as u128);
                all_dup = all_dup && info.duplicatable;
                all_drop = all_drop && info.droppable;
                all_storable = all_storable && info.storable;
            },
        }
        i = i + 1;
    }
    proof {
        assert(memv.take(n as int) =~= memv);
    }
    if sum > (usize::MAX as u128) {
        return Err(SpecializationError::StorageSizeOverflow);
    }
    let data = TypeData {
        storage_size: sum as usize,
        duplicatable: all_dup,
        droppable: all_drop,
        storable: all_storable,
        members,
    };
    proof {
        assert(data@ =~= spec_struct_specialize(ctx@, args_view(args@))->Ok_0);
    }
    Ok(data)
}

/// The core generic type families, dispatched by the registry.
#[derive(Clone, Copy, Debug)]
pub enum CoreType {
    Boxed,
    Struct,
}

impl SpecializeType for CoreType {
    open spec fn spec_specialize(
        &self,
        ctx: Map<Seq<char>, ConcreteTypeInfoView>,
        args: Seq<GenericArgView>,
    ) -> Result<TypeDataView, SpecializationError> {
        match self {
            CoreType::Boxed => spec_box_specialize(ctx, args),
            CoreType::Struct => spec_struct_specialize(ctx, args),
        }
    }

    fn specialize(&self, ctx: &SpecializationContext, args: &Vec<GenericArg>) -> (r: Result<
        TypeData,
        SpecializationError,
    >) {
        match self {
            CoreType::Boxed => box_specialize(ctx, args),
            CoreType::Struct => struct_specialize(ctx, args),
        }
    }
}

/// The signature of dropping a value: the value goes in, nothing comes out,
/// the allocation pointer does not move, and control falls through.
pub open spec fn spec_drop_sig(ty: Seq<char>) -> LibfuncSignatureView {
    LibfuncSignatureView {
        param_signatures: seq![ParamSignatureView { ty, usage: ParamUsage::Regular }],
        branch_signatures: seq![
            BranchSignatureView { vars: Seq::empty(), ap_change: ApChange::Known(0) },
        ],
        fallthrough: Some(0usize),
    }
}

/// The drop family's signature outcome: exactly one `Type` argument, which
/// must resolve and be droppable.
pub open spec fn spec_drop_signature(
    ctx: Map<Seq<char>, ConcreteTypeInfoView>,
    args: Seq<GenericArgView>,
) -> Result<LibfuncSignatureView, SpecializationError> {
    match spec_single_type(args) {
        Err(e) => Err(e),
        Ok(ty) => if !ctx.contains_key(ty) {
            Err(SpecializationError::MissingTypeInfo)
        } else if !ctx[ty].droppable {
            Err(SpecializationError::UnsupportedGenericArg)
        } else {
            Ok(spec_drop_sig(ty))
        },
    }
}

/// The drop family's cost outcome: discarding a value costs no steps.
pub open spec fn spec_drop_cost(
    ctx: Map<Seq<char>, ConcreteTypeInfoView>,
    args: Seq<GenericArgView>,
) -> Result<Cost, SpecializationError> {
    match spec_drop_signature(ctx, args) {
        Err(e) => Err(e),
        Ok(sig) => Ok(Cost { steps: 0 }),
    }
}

/// The signature of duplicating a value: the value goes in, two copies come
/// out, the allocation pointer does not move, and control falls through.
pub open spec fn spec_dup_sig(ty: Seq<char>) -> LibfuncSignatureView {
    LibfuncSignatureView {
        param_signatures: seq![ParamSignatureView { ty, usage: ParamUsage::Regular }],
        branch_signatures: seq![
            BranchSignatureView { vars: seq![ty, ty], ap_change: ApChange::Known(0) },
        ],
        fallthrough: Some(0usize),
    }
}

/// The duplicate family's signature outcome: exactly one `Type` argument,
/// which must resolve and be duplicatable.
pub open spec fn spec_dup_signature(
    ctx: Map<Seq<char>, ConcreteTypeInfoView>,
    args: Seq<GenericArgView>,
) -> Result<LibfuncSignatureView, SpecializationError> {
    match spec_single_type(args) {
        Err(e) => Err(e),
        Ok(ty) => if !ctx.contains_key(ty) {
            Err(SpecializationError::MissingTypeInfo)
        } else if !ctx[ty].duplicatable {
            Err(SpecializationError::UnsupportedGenericArg)
        } else {
            Ok(spec_dup_sig(ty))
        },
    }
}

/// The duplicate family's cost outcome: copying scales with the resolved
/// storage size of the duplicated type.
pub open spec fn spec_dup_cost(
    ctx: Map<Seq<char>, ConcreteTypeInfoView>,
    args: Seq<GenericArgView>,
) -> Result<Cost, SpecializationError> {
    match spec_dup_signature(ctx, args) {
        Err(e) => Err(e),
        Ok(sig) => Ok(Cost { steps: ctx[spec_single_type(args)->Ok_0].storage_size as u64 }),
    }
}

/// The signature of storing a value into a fresh temporary cell: the value
/// goes in deferred, the stored value comes out, and the allocation pointer
/// advances by the value's storage size.
pub open spec fn spec_store_temp_sig(ty: Seq<char>, size: usize) -> LibfuncSignatureView {
    LibfuncSignatureView {
        param_signatures: seq![ParamSignatureView { ty, usage: ParamUsage::Deferred }],
        branch_signatures: seq![
            BranchSignatureView { vars: seq![ty], ap_change: ApChange::Known(size) },
        ],
        fallthrough: Some(0usize),
    }
}

/// The store family's signature outcome: exactly one `Type` argument, which
/// must resolve and be storable.
pub open spec fn spec_store_temp_signature(
    ctx: Map<Seq<char>, ConcreteTypeInfoView>,
    args: Seq<GenericArgView>,
) -> Result<LibfuncSignatureView, SpecializationError> {
    match spec_single_type(args) {
        Err(e) => Err(e),
        Ok(ty) => if !ctx.contains_key(ty) {
            Err(SpecializationError::MissingTypeInfo)
        } else if !ctx[ty].storable {
            Err(SpecializationError::UnsupportedGenericArg)
        } else {
            Ok(spec_store_temp_sig(ty, ctx[ty].storage_size as usize))
        },
    }
}

/// The store family's cost outcome: one step to write the cells.
pub open spec fn spec_store_temp_cost(
    ctx: Map<Seq<char>, ConcreteTypeInfoView>,
    args: Seq<GenericArgView>,
) -> Result<Cost, SpecializationError> {
    match spec_store_temp_signature(ctx, args) {
        Err(e) => Err(e),
        Ok(sig) => Ok(Cost { steps: 1 }),
    }
}

/// The core generic libfunc families, dispatched by the registry.
#[derive(Clone, Copy, Debug)]
pub enum CoreLibfunc {
    Drop,
    Dup,
    StoreTemp,
}

impl SpecializeLibfunc for CoreLibfunc {
    open spec fn spec_signature(
        &self,
        ctx: Map<Seq<char>, ConcreteTypeInfoView>,
        args: Seq<GenericArgView>,
    ) -> Result<LibfuncSignatureView, SpecializationError> {
        match self {
            CoreLibfunc::Drop => spec_drop_signature(ctx, args),
            CoreLibfunc::Dup => spec_dup_signature(ctx, args),
            CoreLibfunc::StoreTemp => spec_store_temp_signature(ctx, args),
        }
    }

    open spec fn spec_cost(
        &self,
        ctx: Map<Seq<char>, ConcreteTypeInfoView>,
        args: Seq<GenericArgView>,
    ) -> Result<Cost, SpecializationError> {
        match self {
            CoreLibfunc::Drop => spec_drop_cost(ctx, args),
            CoreLibfunc::Dup => spec_dup_cost(ctx, args),
            CoreLibfunc::StoreTemp => spec_store_temp_cost(ctx, args),
        }
    }

    fn specialize_signature(&self, ctx: &SpecializationContext, args: &Vec<GenericArg>) -> (r:
        Result<LibfuncSignature, SpecializationError>) {
        match self {
            CoreLibfunc::Drop => drop_signature(ctx, args),
            CoreLibfunc::Dup => dup_signature(ctx, args),
            CoreLibfunc::StoreTemp => store_temp_signature(ctx, args),
        }
    }

    fn specialize_cost(&self, ctx: &SpecializationContext, args: &Vec<GenericArg>) -> (r: Result<
        Cost,
        SpecializationError,
    >) {
        match self {
            CoreLibfunc::Drop => drop_cost(ctx, args),
            CoreLibfunc::Dup => dup_cost(ctx, args),
            CoreLibfunc::StoreTemp => store_temp_cost(ctx, args),
        }
    }
}

/// Computes the drop family's signature.
pub fn drop_signature(ctx: &SpecializationContext, args: &Vec<GenericArg>) -> (r: Result<
    LibfuncSignature,
    SpecializationError,
>)
    ensures
        (match r {
            Ok(sig) => spec_drop_signature(ctx@, args_view(args@)) == Ok::<
                _,
                SpecializationError,
            >(sig@),
            Err(e) => spec_drop_signature(ctx@, args_view(args@)) == Err::<
                LibfuncSignatureView,
                _,
            >(e),
        }),
{
    let ty = match as_single_type(args.as_slice()) {
        Ok(ty) => ty,
        Err(e) => {
            return Err(e);
        },
    };
    let info = match ctx.get_type_info(&ty) {
        Some(info) => info,
        None => {
            return Err(SpecializationError::MissingTypeInfo);
        },
    };
    if !info.droppable {
        return Err(SpecializationError::UnsupportedGenericArg);
    }
    let ghost tyv = ty@;
    let mut params: Vec<ParamSignature> = Vec::new();
    params.push(ParamSignature { ty, usage: ParamUsage::Regular });
    let mut branches: Vec<BranchSignature> = Vec::new();
    branches.push(BranchSignature { vars: Vec::new(), ap_change: ApChange::Known(0) });
    let sig = LibfuncSignature {
        param_signatures: params,
        branch_signatures: branches,
        fallthrough: Some(0),
    };
    proof {
        let target = spec_drop_sig(tyv);
        assert(sig@.param_signatures =~= target.param_signatures);
        assert(sig@.branch_signatures[0].vars =~= target.branch_signatures[0].vars);
        assert(sig@.branch_signatures =~= target.branch_signatures);
        assert(sig@ =~= target);
    }
    Ok(sig)
}

/// Computes the drop family's cost.
pub fn drop_cost(ctx: &SpecializationContext, args: &Vec<GenericArg>) -> (r: Result<
    Cost,
    SpecializationError,
>)
    ensures
        r == spec_drop_cost(ctx@, args_view(args@)),
{
    match drop_signature(ctx, args) {
        Ok(sig) => Ok(Cost { steps: 0 }),
        Err(e) => Err(e),
    }
}

/// Computes the duplicate family's signature.
pub fn dup_signature(ctx: &SpecializationContext, args: &Vec<GenericArg>) -> (r: Result<
    LibfuncSignature,
    SpecializationError,
>)
    ensures
        (match r {
            Ok(sig) => spec_dup_signature(ctx@, args_view(args@)) == Ok::<
                _,
                SpecializationError,
            >(sig@),
            Err(e) => spec_dup_signature(ctx@, args_view(args@)) == Err::<
                LibfuncSignatureView,
                _,
            >(e),
        }),
{
    let ty = match as_single_type(args.as_slice()) {
        Ok(ty) => ty,
        Err(e) => {
            return Err(e);
        },
    };
    let info = match ctx.get_type_info(&ty) {
        Some(info) => info,
        None => {
            return Err(SpecializationError::MissingTypeInfo);
        },
    };
    if !info.duplicatable {
        return Err(SpecializationError::UnsupportedGenericArg);
    }
    let ghost tyv = ty@;
    let ty2 = ty.clone();
    let ty3 = ty.clone();
    let mut params: Vec<ParamSignature> = Vec::new();
    params.push(ParamSignature { ty, usage: ParamUsage::Regular });
    let mut vars: Vec<ConcreteTypeId> = Vec::new();
    vars.push(ty2);
    vars.push(ty3);
    let mut branches: Vec<BranchSignature> = Vec::new();
    branches.push(BranchSignature { vars, ap_change: ApChange::Known(0) });
    let sig = LibfuncSignature {
        param_signatures: params,
        branch_signatures: branches,
        fallthrough: Some(0),
    };
    proof {
        let target = spec_dup_sig(tyv);
        assert(sig@.param_signatures =~= target.param_signatures);
        assert(sig@.branch_signatures[0].vars =~= target.branch_signatures[0].vars);
        assert(sig@.branch_signatures =~= target.branch_signatures);
        assert(sig@ =~= target);
    }
    Ok(sig)
}

/// Computes the duplicate family's cost.
pub fn dup_cost(ctx: &SpecializationContext, args: &Vec<GenericArg>) -> (r: Result<
    Cost,
    SpecializationError,
>)
    ensures
        r == spec_dup_cost(ctx@, args_view(args@)),
{
    let ty = match as_single_type(args.as_slice()) {
        Ok(ty) => ty,
        Err(e) => {
            return Err(e);
        },
    };
    let info = match ctx.get_type_info(&ty) {
        Some(info) => info,
        None => {
            return Err(SpecializationError::MissingTypeInfo);
        },
    };
    if !info.duplicatable {
        return Err(SpecializationError::UnsupportedGenericArg);
    }
    Ok(Cost { steps: info.storage_size as u64 })
}

/// Computes the store family's signature.
pub fn store_temp_signature(ctx: &SpecializationContext, args: &Vec<GenericArg>) -> (r: Result<
    LibfuncSignature,
    SpecializationError,
>)
    ensures
        (match r {
            Ok(sig) => spec_store_temp_signature(ctx@, args_view(args@)) == Ok::<
                _,
                SpecializationError,
            >(sig@),
            Err(e) => spec_store_temp_signature(ctx@, args_view(args@)) == Err::<
                LibfuncSignatureView,
                _,
            >(e),
        }),
{
    let ty = match as_single_type(args.as_slice()) {
        Ok(ty) => ty,
        Err(e) => {
            return Err(e);
        },
    };
    let info = match ctx.get_type_info(&ty) {
        Some(info) => info,
        None => {
            return Err(SpecializationError::MissingTypeInfo);
        },
    };
    if !info.storable {
        return Err(SpecializationError::UnsupportedGenericArg);
    }
    let size = info.storage_size;
    let ghost tyv = ty@;
    let ty2 = ty.clone();
    let mut params: Vec<ParamSignature> = Vec::new();
    params.push(ParamSignature { ty, usage: ParamUsage::Deferred });
    let mut vars: Vec<ConcreteTypeId> = Vec::new();
    vars.push(ty2);
    let mut branches: Vec<BranchSignature> = Vec::new();
    branches.push(BranchSignature { vars, ap_change: ApChange::Known(size) });
    let sig = LibfuncSignature {
        param_signatures: params,
        branch_signatures: branches,
        fallthrough: Some(0),
    };
    proof {
        let target = spec_store_temp_sig(tyv, size);
        assert(sig@.param_signatures =~= target.param_signatures);
        assert(sig@.branch_signatures[0].vars =~= target.branch_signatures[0].vars);
        assert(sig@.branch_signatures =~= target.branch_signatures);
        assert(sig@ =~= target);
    }
    Ok(sig)
}

/// Computes the store family's cost.
pub fn store_temp_cost(ctx: &SpecializationContext, args: &Vec<GenericArg>) -> (r: Result<
    Cost,
    SpecializationError,
>)
    ensures
        r == spec_store_temp_cost(ctx@, args_view(args@)),
{
    match store_temp_signature(ctx, args) {
        Ok(sig) => Ok(Cost { steps: 1 }),
        Err(e) => Err(e),
    }
}

} // verus!
