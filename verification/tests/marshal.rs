use config_script::error::ErrorKind;
use config_script::marshal::{decode, encode, json_failure};
use serde_yaml::{Mapping, Value};

fn text(value: &str) -> Value {
    Value::String(value.to_string())
}

fn sample() -> Mapping {
    let mut inner = Mapping::new();
    inner.insert(text("enable"), Value::Bool(false));
    let mut mapping = Mapping::new();
    mapping.insert(
        text("rules"),
        Value::Sequence(vec![Value::Number(111.into()), Value::Number(222.into())]),
    );
    mapping.insert(text("tun"), Value::Mapping(inner));
    mapping.insert(text("name"), text("it's \"x\"\n"));
    mapping.insert(text("none"), Value::Null);
    mapping
}

#[test]
fn encode_writes_compact_json() {
    assert_eq!(
        encode(&sample()).unwrap(),
        "{\"rules\":[111,222],\"tun\":{\"enable\":false},\"name\":\"it's \\\"x\\\"\\n\",\"none\":null}"
    );
    assert_eq!(encode(&Mapping::new()).unwrap(), "{}");
}

#[test]
fn encode_refuses_a_key_that_is_no_scalar() {
    let mut mapping = Mapping::new();
    mapping.insert(Value::Sequence(vec![]), Value::Null);
    let error = encode(&mapping).unwrap_err();
    assert_eq!(error.kind, ErrorKind::Encode);
    assert_eq!(error.diagnostic, "key must be a string");
    assert_eq!(error.message(), "failed to serialize input: key must be a string");
}

#[test]
fn decode_reads_an_object() {
    let mapping = decode("{\"b\": [1, \"two\", null], \"a\": {\"c\": true}}").unwrap();
    let mut inner = Mapping::new();
    inner.insert(text("c"), Value::Bool(true));
    let mut expected = Mapping::new();
    expected.insert(
        text("b"),
        Value::Sequence(vec![Value::Number(1.into()), text("two"), Value::Null]),
    );
    expected.insert(text("a"), Value::Mapping(inner));
    assert_eq!(mapping, expected);
}

#[test]
fn decode_refuses_what_is_no_json() {
    let error = decode("{\"a\": ").unwrap_err();
    assert_eq!(error.kind, ErrorKind::Decode);
    assert_eq!(error.diagnostic, "EOF while parsing a value at line 1 column 6");
    assert_eq!(decode("").unwrap_err().kind, ErrorKind::Decode);
    assert_eq!(decode("{} x").unwrap_err().kind, ErrorKind::Decode);
}

#[test]
fn decode_refuses_a_top_level_that_is_no_object() {
    for text in ["5", "\"a\"", "[1]", "true", "null"] {
        let error = decode(text).unwrap_err();
        assert_eq!(error.kind, ErrorKind::Decode);
        assert!(error.diagnostic.contains("expected a YAML mapping"));
    }
}

#[test]
fn decode_refuses_a_key_that_comes_twice() {
    let error = decode("{\"a\": 1, \"a\": 2}").unwrap_err();
    assert_eq!(error.kind, ErrorKind::Decode);
}

#[test]
fn decode_of_encode_is_the_document() {
    let mapping = sample();
    let back = decode(&encode(&mapping).unwrap()).unwrap();
    assert_eq!(back, mapping);
    assert_eq!(decode(&encode(&Mapping::new()).unwrap()).unwrap(), Mapping::new());
}

#[test]
fn decode_of_encode_keeps_the_order_of_keys() {
    let mapping = sample();
    let back = decode(&encode(&mapping).unwrap()).unwrap();
    let before: Vec<&Value> = mapping.keys().collect();
    let after: Vec<&Value> = back.keys().collect();
    assert_eq!(before, after);
    assert_eq!(after, vec![&text("rules"), &text("tun"), &text("name"), &text("none")]);
}

#[test]
fn json_failure_hands_on_the_message() {
    let error = serde_json::from_str::<Mapping>("[").unwrap_err();
    let failure = json_failure(ErrorKind::Decode, &error);
    assert_eq!(failure.kind, ErrorKind::Decode);
    assert_eq!(failure.diagnostic, error.to_string());
    assert_ne!(failure.diagnostic, "");
}
