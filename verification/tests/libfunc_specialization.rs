use sierra::context::SpecializationContext;
use sierra::error::SpecializationError;
use sierra::families::CoreLibfunc;
use sierra::ids::{ConcreteTypeId, GenericId};
use sierra::libfuncs::{
    ApChange, BranchSignature, LibfuncRegistry, LibfuncSignature, ParamUsage, validate_signature,
};
use sierra::program::{GenericArg, LongId};
use sierra::types::ConcreteTypeInfo;

fn leaf_info(name: &str, size: usize, dup: bool, drop: bool, storable: bool) -> ConcreteTypeInfo {
    ConcreteTypeInfo {
        long_id: LongId { generic_id: GenericId::named(name), args: Vec::new() },
        storage_size: size,
        duplicatable: dup,
        droppable: drop,
        storable,
        members: Vec::new(),
    }
}

fn ctx_with(leaves: &[(&str, usize, bool, bool, bool)]) -> SpecializationContext {
    let mut ctx = SpecializationContext::new();
    for (name, size, dup, drop, storable) in leaves {
        ctx.declare_type(
            ConcreteTypeId::named(name),
            leaf_info(name, *size, *dup, *drop, *storable),
        );
    }
    ctx
}

fn core_libfunc_registry() -> LibfuncRegistry<CoreLibfunc> {
    let mut reg = LibfuncRegistry::new();
    reg.register(GenericId::named("drop"), CoreLibfunc::Drop).unwrap();
    reg.register(GenericId::named("dup"), CoreLibfunc::Dup).unwrap();
    reg.register(GenericId::named("store_temp"), CoreLibfunc::StoreTemp).unwrap();
    reg
}

fn type_args(name: &str) -> Vec<GenericArg> {
    vec![GenericArg::Type(ConcreteTypeId::named(name))]
}

#[test]
fn drop_specializes_for_droppable_types() {
    let ctx = ctx_with(&[("t", 2, true, true, true)]);
    let mut reg = core_libfunc_registry();
    let desc = reg.specialize_libfunc(&GenericId::named("drop"), &type_args("t"), &ctx).unwrap();
    assert_eq!(desc.signature.param_signatures.len(), 1);
    assert_eq!(desc.signature.param_signatures[0].ty, ConcreteTypeId::named("t"));
    assert_eq!(desc.signature.param_signatures[0].usage, ParamUsage::Regular);
    assert_eq!(desc.signature.branch_signatures.len(), 1);
    assert!(desc.signature.branch_signatures[0].vars.is_empty());
    assert_eq!(desc.signature.branch_signatures[0].ap_change, ApChange::Known(0));
    assert_eq!(desc.signature.fallthrough, Some(0));
    assert_eq!(desc.cost.steps, 0);
}

#[test]
fn drop_of_non_droppable_type_is_rejected() {
    let ctx = ctx_with(&[("pinned", 1, true, false, true)]);
    let mut reg = core_libfunc_registry();
    assert_eq!(
        reg.specialize_libfunc(&GenericId::named("drop"), &type_args("pinned"), &ctx).unwrap_err(),
        SpecializationError::UnsupportedGenericArg
    );
}

#[test]
fn dup_returns_two_copies_and_costs_the_storage_size() {
    let ctx = ctx_with(&[("t", 3, true, true, true)]);
    let mut reg = core_libfunc_registry();
    let desc = reg.specialize_libfunc(&GenericId::named("dup"), &type_args("t"), &ctx).unwrap();
    assert_eq!(desc.signature.branch_signatures.len(), 1);
    assert_eq!(desc.signature.branch_signatures[0].vars.len(), 2);
    assert_eq!(desc.signature.branch_signatures[0].vars[0], ConcreteTypeId::named("t"));
    assert_eq!(desc.signature.branch_signatures[0].vars[1], ConcreteTypeId::named("t"));
    // Copy cost scales with the resolved storage size.
    assert_eq!(desc.cost.steps, 3);
}

#[test]
fn dup_of_non_duplicatable_type_is_rejected() {
    let ctx = ctx_with(&[("linear", 1, false, true, true)]);
    let mut reg = core_libfunc_registry();
    assert_eq!(
        reg.specialize_libfunc(&GenericId::named("dup"), &type_args("linear"), &ctx).unwrap_err(),
        SpecializationError::UnsupportedGenericArg
    );
}

#[test]
fn store_temp_advances_ap_by_the_storage_size() {
    let ctx = ctx_with(&[("t", 4, true, true, true)]);
    let mut reg = core_libfunc_registry();
    let desc =
        reg.specialize_libfunc(&GenericId::named("store_temp"), &type_args("t"), &ctx).unwrap();
    assert_eq!(desc.signature.param_signatures[0].usage, ParamUsage::Deferred);
    assert_eq!(desc.signature.branch_signatures[0].ap_change, ApChange::Known(4));
    assert_eq!(desc.signature.branch_signatures[0].vars.len(), 1);
    assert_eq!(desc.cost.steps, 1);
}

#[test]
fn store_temp_of_non_storable_type_is_rejected() {
    let ctx = ctx_with(&[("fleeting", 1, true, true, false)]);
    let mut reg = core_libfunc_registry();
    assert_eq!(
        reg.specialize_libfunc(&GenericId::named("store_temp"), &type_args("fleeting"), &ctx)
            .unwrap_err(),
        SpecializationError::UnsupportedGenericArg
    );
}

#[test]
fn unknown_libfunc_id_fails_regardless_of_arguments() {
    let ctx = ctx_with(&[("t", 1, true, true, true)]);
    let mut reg = core_libfunc_registry();
    let no_args: Vec<GenericArg> = vec![];
    assert_eq!(
        reg.specialize_libfunc(&GenericId::named("NoSuchLibfunc"), &no_args, &ctx).unwrap_err(),
        SpecializationError::UnsupportedId
    );
    assert_eq!(
        reg.specialize_libfunc(&GenericId::named("NoSuchLibfunc"), &type_args("t"), &ctx)
            .unwrap_err(),
        SpecializationError::UnsupportedId
    );
}

#[test]
fn libfunc_arity_and_resolution_errors_propagate() {
    let ctx = ctx_with(&[("t", 1, true, true, true)]);
    let mut reg = core_libfunc_registry();
    let no_args: Vec<GenericArg> = vec![];
    assert_eq!(
        reg.specialize_libfunc(&GenericId::named("drop"), &no_args, &ctx).unwrap_err(),
        SpecializationError::WrongNumberOfGenericArgs
    );
    assert_eq!(
        reg.specialize_libfunc(&GenericId::named("drop"), &vec![GenericArg::Value(1)], &ctx)
            .unwrap_err(),
        SpecializationError::UnsupportedGenericArg
    );
    assert_eq!(
        reg.specialize_libfunc(&GenericId::named("drop"), &type_args("unknown"), &ctx)
            .unwrap_err(),
        SpecializationError::MissingTypeInfo
    );
}

#[test]
fn libfunc_signature_closure_property_holds() {
    // Every concrete type referenced by a produced signature resolves in the
    // context it was produced under.
    let ctx = ctx_with(&[("t", 2, true, true, true)]);
    let mut reg = core_libfunc_registry();
    let desc = reg.specialize_libfunc(&GenericId::named("dup"), &type_args("t"), &ctx).unwrap();
    for param in &desc.signature.param_signatures {
        assert!(ctx.get_type_info(&param.ty).is_some());
    }
    for branch in &desc.signature.branch_signatures {
        for var in &branch.vars {
            assert!(ctx.get_type_info(var).is_some());
        }
    }
}

#[test]
fn libfunc_caching_is_idempotent() {
    let ctx = ctx_with(&[("t", 2, true, true, true)]);
    let mut reg = core_libfunc_registry();
    let first = reg.specialize_libfunc(&GenericId::named("dup"), &type_args("t"), &ctx).unwrap();
    assert_eq!(reg.produced().len(), 1);
    let second = reg.specialize_libfunc(&GenericId::named("dup"), &type_args("t"), &ctx).unwrap();
    assert_eq!(reg.produced().len(), 1);
    assert_eq!(first.long_id, second.long_id);
    assert_eq!(first.cost, second.cost);
    assert_eq!(
        first.signature.branch_signatures[0].vars,
        second.signature.branch_signatures[0].vars
    );
}

#[test]
fn malformed_signatures_are_rejected_by_validation() {
    let ctx = ctx_with(&[("t", 1, true, true, true)]);
    let no_branch = LibfuncSignature {
        param_signatures: vec![],
        branch_signatures: vec![],
        fallthrough: None,
    };
    assert_eq!(
        validate_signature(&ctx, &no_branch).unwrap_err(),
        SpecializationError::MalformedSignature
    );
    let bad_fallthrough = LibfuncSignature {
        param_signatures: vec![],
        branch_signatures: vec![
            BranchSignature { vars: vec![], ap_change: ApChange::Known(0) },
        ],
        fallthrough: Some(1),
    };
    assert_eq!(
        validate_signature(&ctx, &bad_fallthrough).unwrap_err(),
        SpecializationError::MalformedSignature
    );
    let unresolved_var = LibfuncSignature {
        param_signatures: vec![],
        branch_signatures: vec![
            BranchSignature {
                vars: vec![ConcreteTypeId::named("missing")],
                ap_change: ApChange::Unknown,
            },
        ],
        fallthrough: Some(0),
    };
    assert_eq!(
        validate_signature(&ctx, &unresolved_var).unwrap_err(),
        SpecializationError::MissingTypeInfo
    );
    let fine = LibfuncSignature {
        param_signatures: vec![],
        branch_signatures: vec![
            BranchSignature {
                vars: vec![ConcreteTypeId::named("t")],
                ap_change: ApChange::Finite,
            },
        ],
        fallthrough: Some(0),
    };
    assert!(validate_signature(&ctx, &fine).is_ok());
}
