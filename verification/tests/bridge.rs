use json_bridge::bridge::{host_number, json_value_to_js};
use json_bridge::error::CodecError;
use json_bridge::host::{HostNumber, HostValue};
use serde_json::{Number, Value};

fn integer(i: i64) -> HostValue {
    HostValue::Number(HostNumber::Integer(i))
}

fn double(d: f64) -> HostValue {
    HostValue::Number(HostNumber::Double(d.to_bits()))
}

#[test]
fn host_number_takes_the_integer_first() {
    assert_eq!(host_number(Some(5), Some(5.0f64.to_bits())), Ok(HostNumber::Integer(5)));
    assert_eq!(host_number(Some(-1), None), Ok(HostNumber::Integer(-1)));
    assert_eq!(
        host_number(None, Some(1.5f64.to_bits())),
        Ok(HostNumber::Double(1.5f64.to_bits()))
    );
}

#[test]
fn host_number_without_integer_or_double_is_invalid() {
    assert_eq!(host_number(None, None), Err(CodecError::InvalidNumber));
}

#[test]
fn bridges_null_booleans_and_strings() {
    assert_eq!(json_value_to_js(&Value::Null), Ok(HostValue::Null));
    assert_eq!(json_value_to_js(&Value::Bool(true)), Ok(HostValue::Bool(true)));
    assert_eq!(json_value_to_js(&Value::Bool(false)), Ok(HostValue::Bool(false)));
    assert_eq!(
        json_value_to_js(&Value::String("h\u{e9}llo\n".to_string())),
        Ok(HostValue::String("h\u{e9}llo\n".to_string()))
    );
    assert_eq!(
        json_value_to_js(&Value::String(String::new())),
        Ok(HostValue::String(String::new()))
    );
}

#[test]
fn bridges_integers_exactly() {
    assert_eq!(json_value_to_js(&Value::from(0)), Ok(integer(0)));
    assert_eq!(json_value_to_js(&Value::from(-42)), Ok(integer(-42)));
    assert_eq!(json_value_to_js(&Value::from(i64::MAX)), Ok(integer(i64::MAX)));
    assert_eq!(json_value_to_js(&Value::from(i64::MIN)), Ok(integer(i64::MIN)));
    assert_eq!(
        json_value_to_js(&Value::from(9007199254740993i64)),
        Ok(integer(9007199254740993))
    );
}

#[test]
fn bridges_doubles_by_their_bits() {
    assert_eq!(json_value_to_js(&Value::from(1.5)), Ok(double(1.5)));
    assert_eq!(json_value_to_js(&Value::from(-0.0)), Ok(double(-0.0)));
    assert_eq!(json_value_to_js(&Value::from(1e300)), Ok(double(1e300)));
    let whole = Value::Number(Number::from_f64(2.0).unwrap());
    assert_eq!(json_value_to_js(&whole), Ok(double(2.0)));
}

#[test]
fn bridges_integers_above_the_signed_range_as_doubles() {
    assert_eq!(json_value_to_js(&Value::from(u64::MAX)), Ok(double(18446744073709551615.0)));
    assert_eq!(
        json_value_to_js(&Value::from(9223372036854775808u64)),
        Ok(double(9223372036854775808.0))
    );
}

#[test]
fn bridges_arrays_in_order() {
    let value = Value::Array(vec![Value::from(3), Value::Null, Value::from("x"), Value::from(1)]);
    assert_eq!(
        json_value_to_js(&value),
        Ok(HostValue::Array(vec![
            integer(3),
            HostValue::Null,
            HostValue::String("x".to_string()),
            integer(1),
        ]))
    );
    assert_eq!(json_value_to_js(&Value::Array(vec![])), Ok(HostValue::Array(vec![])));
}

#[test]
fn bridges_objects_in_insertion_order() {
    let mut map = serde_json::Map::new();
    map.insert("zeta".to_string(), Value::from(1));
    map.insert("alpha".to_string(), Value::from(2));
    map.insert("mid".to_string(), Value::Bool(true));
    assert_eq!(
        json_value_to_js(&Value::Object(map)),
        Ok(HostValue::Object(vec![
            ("zeta".to_string(), integer(1)),
            ("alpha".to_string(), integer(2)),
            ("mid".to_string(), HostValue::Bool(true)),
        ]))
    );
    assert_eq!(json_value_to_js(&Value::Object(serde_json::Map::new())), Ok(HostValue::Object(vec![])));
}

#[test]
fn nested_objects_keep_their_members() {
    let mut inner = serde_json::Map::new();
    inner.insert("leaf".to_string(), Value::from("deep"));
    let mut middle = serde_json::Map::new();
    middle.insert("inner".to_string(), Value::Object(inner));
    middle.insert("list".to_string(), Value::Array(vec![Value::from(1), Value::from(2)]));
    let mut outer = serde_json::Map::new();
    outer.insert("middle".to_string(), Value::Object(middle));
    outer.insert("id".to_string(), Value::from(7));
    let bridged = json_value_to_js(&Value::Object(outer));
    assert_eq!(
        bridged,
        Ok(HostValue::Object(vec![
            (
                "middle".to_string(),
                HostValue::Object(vec![
                    (
                        "inner".to_string(),
                        HostValue::Object(vec![(
                            "leaf".to_string(),
                            HostValue::String("deep".to_string()),
                        )]),
                    ),
                    ("list".to_string(), HostValue::Array(vec![integer(1), integer(2)])),
                ]),
            ),
            ("id".to_string(), integer(7)),
        ]))
    );
}
