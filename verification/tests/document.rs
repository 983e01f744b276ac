use config_script::document::{is_representable, value_is_finite};
use config_script::error::ErrorKind;
use config_script::marshal::encode;
use serde_yaml::value::{Tag, TaggedValue};
use serde_yaml::{Mapping, Number, Value};

fn text(value: &str) -> Value {
    Value::String(value.to_string())
}

fn float(value: f64) -> Value {
    Value::Number(Number::from(value))
}

fn single(key: Value, value: Value) -> Mapping {
    let mut mapping = Mapping::new();
    mapping.insert(key, value);
    mapping
}

#[test]
fn scalars_but_odd_numbers_are_finite() {
    assert!(value_is_finite(&Value::Null));
    assert!(value_is_finite(&Value::Bool(true)));
    assert!(value_is_finite(&text("NaN")));
    assert!(value_is_finite(&Value::Number(7.into())));
    assert!(value_is_finite(&Value::Number(u64::MAX.into())));
    assert!(value_is_finite(&Value::Number(i64::MIN.into())));
    assert!(value_is_finite(&float(0.5)));
    assert!(value_is_finite(&float(f64::MAX)));
    assert!(!value_is_finite(&float(f64::NAN)));
    assert!(!value_is_finite(&float(f64::INFINITY)));
    assert!(!value_is_finite(&float(f64::NEG_INFINITY)));
}

#[test]
fn a_number_deep_in_the_tree_is_found() {
    let deep = Value::Sequence(vec![
        Value::Number(1.into()),
        Value::Mapping(single(text("k"), Value::Sequence(vec![text("a"), float(f64::NAN)]))),
    ]);
    assert!(!value_is_finite(&deep));
    let fine = Value::Sequence(vec![
        Value::Number(1.into()),
        Value::Mapping(single(text("k"), Value::Sequence(vec![text("a"), float(1.5)]))),
    ]);
    assert!(value_is_finite(&fine));
    assert!(value_is_finite(&Value::Sequence(vec![])));
}

#[test]
fn a_number_under_a_tag_is_found() {
    let tagged = |value: Value| {
        Value::Tagged(Box::new(TaggedValue {
            tag: Tag::new("unit"),
            value,
        }))
    };
    assert!(value_is_finite(&tagged(float(2.0))));
    assert!(!value_is_finite(&tagged(float(f64::INFINITY))));
}

#[test]
fn keys_and_values_of_a_mapping_are_looked_at() {
    assert!(is_representable(&Mapping::new()));
    assert!(is_representable(&single(text("a"), float(1.0))));
    assert!(!is_representable(&single(text("a"), float(f64::NAN))));
    assert!(!is_representable(&single(float(f64::INFINITY), text("a"))));
    let mut later = single(text("a"), Value::Null);
    later.insert(text("b"), Value::Bool(false));
    later.insert(text("c"), Value::Sequence(vec![float(f64::NEG_INFINITY)]));
    assert!(!is_representable(&later));
}

#[test]
fn encode_refuses_a_number_that_is_not_finite() {
    for odd in [f64::NAN, f64::INFINITY, f64::NEG_INFINITY] {
        let document = single(text("ratio"), Value::Sequence(vec![float(odd)]));
        let error = encode(&document).unwrap_err();
        assert_eq!(error.kind, ErrorKind::Encode);
        assert_eq!(error.diagnostic, "a number is not finite");
    }
}

#[test]
fn encode_writes_finite_numbers() {
    let mut document = Mapping::new();
    document.insert(text("half"), float(0.5));
    document.insert(text("big"), Value::Number(u64::MAX.into()));
    document.insert(text("low"), Value::Number(i64::MIN.into()));
    assert_eq!(
        encode(&document).unwrap(),
        "{\"half\":0.5,\"big\":18446744073709551615,\"low\":-9223372036854775808}"
    );
}
