use sierra::ids::{ConcreteTypeId, GenericId};
use sierra::program::{GenericArg, LongId};

fn long_id(name: &str, args: Vec<GenericArg>) -> LongId {
    LongId::new(GenericId::named(name), args)
}

#[test]
fn encoding_without_arguments_is_the_generic_name() {
    assert_eq!(long_id("felt", vec![]).encode(), "felt");
}

#[test]
fn encoding_of_a_type_argument_uses_its_concrete_name() {
    let id = long_id("Box", vec![GenericArg::Type(ConcreteTypeId::named("felt"))]);
    assert_eq!(id.encode(), "Box<felt>");
}

#[test]
fn encoding_of_value_arguments_is_decimal() {
    assert_eq!(long_id("int", vec![GenericArg::Value(8)]).encode(), "int<8>");
    assert_eq!(long_id("int", vec![GenericArg::Value(0)]).encode(), "int<0>");
    assert_eq!(long_id("int", vec![GenericArg::Value(-5)]).encode(), "int<-5>");
    assert_eq!(long_id("int", vec![GenericArg::Value(1234)]).encode(), "int<1234>");
    assert_eq!(
        long_id("int", vec![GenericArg::Value(i128::MIN)]).encode(),
        format!("int<{}>", i128::MIN)
    );
}

#[test]
fn encoding_of_user_type_arguments_is_tagged() {
    let id = long_id("Struct", vec![GenericArg::UserType(String::from("Point"))]);
    assert_eq!(id.encode(), "Struct<ut@Point>");
}

#[test]
fn encoding_separates_arguments_in_order() {
    let id = long_id(
        "Struct",
        vec![
            GenericArg::UserType(String::from("Pair")),
            GenericArg::Type(ConcreteTypeId::named("felt")),
            GenericArg::Value(3),
        ],
    );
    assert_eq!(id.encode(), "Struct<ut@Pair, felt, 3>");
}

#[test]
fn encoding_is_deterministic() {
    let a = long_id("Box", vec![GenericArg::Type(ConcreteTypeId::named("felt"))]);
    let b = long_id("Box", vec![GenericArg::Type(ConcreteTypeId::named("felt"))]);
    assert_eq!(a.encode(), b.encode());
}
