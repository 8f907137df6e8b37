use sierra::args::{as_single_type, as_single_value, as_type_and_value, as_type_list};
use sierra::context::SpecializationContext;
use sierra::error::{RegistryError, SpecializationError};
use sierra::families::CoreType;
use sierra::ids::{ConcreteTypeId, GenericId};
use sierra::program::{GenericArg, LongId};
use sierra::types::{ConcreteTypeInfo, TypeData, TypeRegistry, validate_type_data};

fn leaf_info(name: &str, size: usize, dup: bool, drop: bool) -> ConcreteTypeInfo {
    ConcreteTypeInfo {
        long_id: LongId { generic_id: GenericId::named(name), args: Vec::new() },
        storage_size: size,
        duplicatable: dup,
        droppable: drop,
        storable: true,
        members: Vec::new(),
    }
}

fn ctx_with_leaves(leaves: &[(&str, usize, bool, bool)]) -> SpecializationContext {
    let mut ctx = SpecializationContext::new();
    for (name, size, dup, drop) in leaves {
        ctx.declare_type(ConcreteTypeId::named(name), leaf_info(name, *size, *dup, *drop));
    }
    ctx
}

fn core_type_registry() -> TypeRegistry<CoreType> {
    let mut reg = TypeRegistry::new();
    reg.register(GenericId::named("Box"), CoreType::Boxed).unwrap();
    reg.register(GenericId::named("Struct"), CoreType::Struct).unwrap();
    reg
}

#[test]
fn single_type_on_empty_list_is_arity_error() {
    let args: Vec<GenericArg> = vec![];
    assert_eq!(
        as_single_type(&args).unwrap_err(),
        SpecializationError::WrongNumberOfGenericArgs
    );
}

#[test]
fn single_type_on_value_is_kind_error() {
    let args = vec![GenericArg::Value(3)];
    assert_eq!(as_single_type(&args).unwrap_err(), SpecializationError::UnsupportedGenericArg);
}

#[test]
fn single_type_on_type_returns_it() {
    let args = vec![GenericArg::Type(ConcreteTypeId::named("felt"))];
    assert_eq!(as_single_type(&args).unwrap(), ConcreteTypeId::named("felt"));
}

#[test]
fn single_type_on_two_args_is_arity_error() {
    let args = vec![
        GenericArg::Type(ConcreteTypeId::named("felt")),
        GenericArg::Type(ConcreteTypeId::named("felt")),
    ];
    assert_eq!(
        as_single_type(&args).unwrap_err(),
        SpecializationError::WrongNumberOfGenericArgs
    );
}

#[test]
fn single_value_validates_arity_then_kind() {
    assert_eq!(
        as_single_value(&[]).unwrap_err(),
        SpecializationError::WrongNumberOfGenericArgs
    );
    assert_eq!(
        as_single_value(&[GenericArg::Type(ConcreteTypeId::named("felt"))]).unwrap_err(),
        SpecializationError::UnsupportedGenericArg
    );
    assert_eq!(as_single_value(&[GenericArg::Value(-7)]).unwrap(), -7);
}

#[test]
fn type_and_value_pair_is_extracted() {
    let args = vec![GenericArg::Type(ConcreteTypeId::named("felt")), GenericArg::Value(8)];
    let (ty, v) = as_type_and_value(&args).unwrap();
    assert_eq!(ty, ConcreteTypeId::named("felt"));
    assert_eq!(v, 8);
    let swapped = vec![GenericArg::Value(8), GenericArg::Type(ConcreteTypeId::named("felt"))];
    assert_eq!(
        as_type_and_value(&swapped).unwrap_err(),
        SpecializationError::UnsupportedGenericArg
    );
    assert_eq!(
        as_type_and_value(&[]).unwrap_err(),
        SpecializationError::WrongNumberOfGenericArgs
    );
}

#[test]
fn type_list_accepts_any_length_of_types() {
    assert_eq!(as_type_list(&[]).unwrap(), Vec::<ConcreteTypeId>::new());
    let args = vec![
        GenericArg::Type(ConcreteTypeId::named("a")),
        GenericArg::Type(ConcreteTypeId::named("b")),
    ];
    let tys = as_type_list(&args).unwrap();
    assert_eq!(tys.len(), 2);
    assert_eq!(tys[0], ConcreteTypeId::named("a"));
    assert_eq!(tys[1], ConcreteTypeId::named("b"));
    let bad = vec![GenericArg::Type(ConcreteTypeId::named("a")), GenericArg::Value(1)];
    assert_eq!(as_type_list(&bad).unwrap_err(), SpecializationError::UnsupportedGenericArg);
}

#[test]
fn unknown_generic_id_fails_regardless_of_arguments() {
    let ctx = ctx_with_leaves(&[("t", 1, true, true)]);
    let mut reg = core_type_registry();
    let no_args: Vec<GenericArg> = vec![];
    assert_eq!(
        reg.specialize_type(&GenericId::named("NoSuchType"), &no_args, &ctx).unwrap_err(),
        SpecializationError::UnsupportedId
    );
    let some_args = vec![GenericArg::Type(ConcreteTypeId::named("t")), GenericArg::Value(4)];
    assert_eq!(
        reg.specialize_type(&GenericId::named("NoSuchType"), &some_args, &ctx).unwrap_err(),
        SpecializationError::UnsupportedId
    );
}

#[test]
fn box_end_to_end_scenario() {
    // A minimal "Box" family over one `Type` argument: size one, droppable
    // exactly when the inner type is, never duplicatable, no members.
    let ctx = ctx_with_leaves(&[("t", 2, true, true)]);
    let mut reg = core_type_registry();
    let args = vec![GenericArg::Type(ConcreteTypeId::named("t"))];
    let info = reg.specialize_type(&GenericId::named("Box"), &args, &ctx).unwrap();
    assert_eq!(info.storage_size, 1);
    assert!(info.droppable);
    assert!(!info.duplicatable);
    assert!(info.storable);
    assert!(info.members.is_empty());
    assert_eq!(info.long_id.generic_id, GenericId::named("Box"));
}

#[test]
fn box_of_unknown_inner_type_is_missing_type_info() {
    let ctx = SpecializationContext::new();
    let mut reg = core_type_registry();
    let args = vec![GenericArg::Type(ConcreteTypeId::named("nowhere"))];
    assert_eq!(
        reg.specialize_type(&GenericId::named("Box"), &args, &ctx).unwrap_err(),
        SpecializationError::MissingTypeInfo
    );
}

#[test]
fn box_arity_and_kind_errors_propagate() {
    let ctx = ctx_with_leaves(&[("t", 1, true, true)]);
    let mut reg = core_type_registry();
    let no_args: Vec<GenericArg> = vec![];
    assert_eq!(
        reg.specialize_type(&GenericId::named("Box"), &no_args, &ctx).unwrap_err(),
        SpecializationError::WrongNumberOfGenericArgs
    );
    let value_arg = vec![GenericArg::Value(3)];
    assert_eq!(
        reg.specialize_type(&GenericId::named("Box"), &value_arg, &ctx).unwrap_err(),
        SpecializationError::UnsupportedGenericArg
    );
}

#[test]
fn composite_size_is_sum_of_member_sizes() {
    let ctx = ctx_with_leaves(&[("a", 2, true, true), ("b", 3, true, true), ("c", 1, true, true)]);
    let mut reg = core_type_registry();
    let args = vec![
        GenericArg::Type(ConcreteTypeId::named("a")),
        GenericArg::Type(ConcreteTypeId::named("b")),
        GenericArg::Type(ConcreteTypeId::named("c")),
    ];
    let info = reg.specialize_type(&GenericId::named("Struct"), &args, &ctx).unwrap();
    assert_eq!(info.storage_size, 6);
    assert_eq!(info.members.len(), 3);
    assert_eq!(info.members[0], ConcreteTypeId::named("a"));
}

#[test]
fn empty_composite_has_size_zero() {
    let ctx = SpecializationContext::new();
    let mut reg = core_type_registry();
    let no_args: Vec<GenericArg> = vec![];
    let info = reg.specialize_type(&GenericId::named("Struct"), &no_args, &ctx).unwrap();
    assert_eq!(info.storage_size, 0);
    assert!(info.members.is_empty());
    assert!(info.duplicatable);
    assert!(info.droppable);
}

#[test]
fn composite_duplicatable_iff_every_member_is() {
    let all_dup = ctx_with_leaves(&[("a", 1, true, true), ("b", 1, true, true)]);
    let one_not = ctx_with_leaves(&[("a", 1, true, true), ("b", 1, false, true)]);
    let args = vec![
        GenericArg::Type(ConcreteTypeId::named("a")),
        GenericArg::Type(ConcreteTypeId::named("b")),
    ];
    let mut reg = core_type_registry();
    let info = reg.specialize_type(&GenericId::named("Struct"), &args, &all_dup).unwrap();
    assert!(info.duplicatable);
    // Flipping a single member from duplicatable to non-duplicatable flips
    // the composite's flag.
    let mut reg2 = core_type_registry();
    let info2 = reg2.specialize_type(&GenericId::named("Struct"), &args, &one_not).unwrap();
    assert!(!info2.duplicatable);
    assert!(info2.droppable);
}

#[test]
fn composite_size_overflow_is_reported() {
    let ctx = ctx_with_leaves(&[("big", usize::MAX, true, true), ("one", 1, true, true)]);
    let mut reg = core_type_registry();
    let args = vec![
        GenericArg::Type(ConcreteTypeId::named("big")),
        GenericArg::Type(ConcreteTypeId::named("one")),
    ];
    assert_eq!(
        reg.specialize_type(&GenericId::named("Struct"), &args, &ctx).unwrap_err(),
        SpecializationError::StorageSizeOverflow
    );
}

#[test]
fn specialization_is_deterministic() {
    // Two structurally equal requests, built independently, yield equal
    // descriptors.
    let ctx = ctx_with_leaves(&[("t", 2, true, true)]);
    let mut r1 = core_type_registry();
    let mut r2 = core_type_registry();
    let a1 = vec![GenericArg::Type(ConcreteTypeId::named("t"))];
    let a2 = vec![GenericArg::Type(ConcreteTypeId::named("t"))];
    let i1 = r1.specialize_type(&GenericId::named("Box"), &a1, &ctx).unwrap();
    let i2 = r2.specialize_type(&GenericId::named("Box"), &a2, &ctx).unwrap();
    assert_eq!(i1.storage_size, i2.storage_size);
    assert_eq!(i1.duplicatable, i2.duplicatable);
    assert_eq!(i1.droppable, i2.droppable);
    assert_eq!(i1.long_id, i2.long_id);
}

#[test]
fn repeated_requests_hit_the_cache() {
    let ctx = ctx_with_leaves(&[("t", 2, true, true)]);
    let mut reg = core_type_registry();
    let args = vec![GenericArg::Type(ConcreteTypeId::named("t"))];
    let first = reg.specialize_type(&GenericId::named("Box"), &args, &ctx).unwrap();
    assert_eq!(reg.produced().len(), 1);
    let again = vec![GenericArg::Type(ConcreteTypeId::named("t"))];
    let second = reg.specialize_type(&GenericId::named("Box"), &again, &ctx).unwrap();
    // The computation ran at most once: nothing new was produced, and the
    // answer is value-identical.
    assert_eq!(reg.produced().len(), 1);
    assert_eq!(first.long_id, second.long_id);
    assert_eq!(first.storage_size, second.storage_size);
    assert_eq!(first.duplicatable, second.duplicatable);
    assert_eq!(first.droppable, second.droppable);
    assert_eq!(first.members, second.members);
}

#[test]
fn produced_descriptors_are_iterable_by_key() {
    let ctx = ctx_with_leaves(&[("t", 2, true, true), ("u", 3, true, true)]);
    let mut reg = core_type_registry();
    let a = vec![GenericArg::Type(ConcreteTypeId::named("t"))];
    let b = vec![GenericArg::Type(ConcreteTypeId::named("u"))];
    reg.specialize_type(&GenericId::named("Box"), &a, &ctx).unwrap();
    reg.specialize_type(&GenericId::named("Box"), &b, &ctx).unwrap();
    let produced = reg.produced();
    assert_eq!(produced.len(), 2);
    assert_eq!(produced[0].0, LongId::new(GenericId::named("Box"), a));
    assert_eq!(produced[1].0, LongId::new(GenericId::named("Box"), b));
}

#[test]
fn duplicate_family_registration_is_rejected() {
    let mut reg: TypeRegistry<CoreType> = TypeRegistry::new();
    reg.register(GenericId::named("Box"), CoreType::Boxed).unwrap();
    assert_eq!(
        reg.register(GenericId::named("Box"), CoreType::Struct).unwrap_err(),
        RegistryError::DuplicateId
    );
    // The first registration still dispatches.
    let ctx = ctx_with_leaves(&[("t", 2, true, true)]);
    let args = vec![GenericArg::Type(ConcreteTypeId::named("t"))];
    let info = reg.specialize_type(&GenericId::named("Box"), &args, &ctx).unwrap();
    assert_eq!(info.storage_size, 1);
}

#[test]
fn context_resolves_and_shadows() {
    let mut ctx = SpecializationContext::new();
    assert!(ctx.get_type_info(&ConcreteTypeId::named("t")).is_none());
    ctx.declare_type(ConcreteTypeId::named("t"), leaf_info("t", 1, true, true));
    assert_eq!(ctx.get_type_info(&ConcreteTypeId::named("t")).unwrap().storage_size, 1);
    ctx.declare_type(ConcreteTypeId::named("t"), leaf_info("t", 5, true, true));
    assert_eq!(ctx.get_type_info(&ConcreteTypeId::named("t")).unwrap().storage_size, 5);
    assert!(ctx.contains_type(&ConcreteTypeId::named("t")));
    assert!(!ctx.contains_type(&ConcreteTypeId::named("u")));
}

#[test]
fn inconsistent_family_data_is_rejected() {
    // The framework itself validates composite data: a size that is not the
    // member sum, or flags that do not propagate, are inconsistent.
    let ctx = ctx_with_leaves(&[("a", 2, true, true)]);
    let bad_size = TypeData {
        storage_size: 3,
        duplicatable: true,
        droppable: true,
        storable: true,
        members: vec![ConcreteTypeId::named("a")],
    };
    assert_eq!(
        validate_type_data(&ctx, &bad_size).unwrap_err(),
        SpecializationError::InconsistentMembers
    );
    let bad_flag = TypeData {
        storage_size: 2,
        duplicatable: false,
        droppable: true,
        storable: true,
        members: vec![ConcreteTypeId::named("a")],
    };
    assert_eq!(
        validate_type_data(&ctx, &bad_flag).unwrap_err(),
        SpecializationError::InconsistentMembers
    );
    let missing_member = TypeData {
        storage_size: 2,
        duplicatable: true,
        droppable: true,
        storable: true,
        members: vec![ConcreteTypeId::named("ghostly")],
    };
    assert_eq!(
        validate_type_data(&ctx, &missing_member).unwrap_err(),
        SpecializationError::MissingTypeInfo
    );
    let good = TypeData {
        storage_size: 2,
        duplicatable: true,
        droppable: true,
        storable: true,
        members: vec![ConcreteTypeId::named("a")],
    };
    assert!(validate_type_data(&ctx, &good).is_ok());
}
