use json_bridge::error::CodecError;
use json_bridge::host::{HostNumber, HostValue};
use json_bridge::state::{
    quick_deserialize_state, quick_serialize_state, StateSerializer, STATE_BUFFER_FLOOR,
};
use serde_json::Value;

fn snapshot(step: i64) -> Value {
    let mut map = serde_json::Map::new();
    map.insert("step".to_string(), Value::from(step));
    map.insert("done".to_string(), Value::Bool(step > 1));
    Value::Object(map)
}

#[test]
fn test_state_serializer_creation() {
    let serializer = StateSerializer::new(false);
    assert_eq!(serializer.get_buffer_capacity(), 8192);
}

#[test]
fn floor_of_the_state_buffer() {
    assert_eq!(STATE_BUFFER_FLOOR, 8192);
}

#[test]
fn compression_flag_is_carried() {
    assert_eq!(StateSerializer::new(true).is_compression_enabled(), true);
    assert_eq!(StateSerializer::new(false).is_compression_enabled(), false);
}

#[test]
fn compression_flag_changes_no_byte() {
    let mut plain = StateSerializer::new(false);
    let mut flagged = StateSerializer::new(true);
    assert_eq!(plain.serialize_state(&snapshot(1)), flagged.serialize_state(&snapshot(1)));
    assert_eq!(
        flagged.serialize_state(&snapshot(1)),
        Ok("{\"step\":1,\"done\":false}".to_string())
    );
    assert_eq!(plain.get_state_size(&snapshot(2)), flagged.get_state_size(&snapshot(2)));
    assert_eq!(flagged.is_compression_enabled(), true);
}

#[test]
fn compress_and_decompress_hand_their_input_back() {
    for enabled in [false, true] {
        let serializer = StateSerializer::new(enabled);
        assert_eq!(serializer.compress_buffer(&[1, 2, 2, 2, 0, 255]), vec![1, 2, 2, 2, 0, 255]);
        assert_eq!(serializer.compress_buffer(&[]), Vec::<u8>::new());
        assert_eq!(serializer.decompress_str("aaaa{}"), Ok("aaaa{}".to_string()));
        assert_eq!(serializer.decompress_str(""), Ok(String::new()));
    }
}

#[test]
fn deserialize_state_rebuilds_the_snapshot() {
    let serializer = StateSerializer::new(false);
    assert_eq!(
        serializer.deserialize_state("{\"step\":3,\"done\":true}"),
        Ok(HostValue::Object(vec![
            ("step".to_string(), HostValue::Number(HostNumber::Integer(3))),
            ("done".to_string(), HostValue::Bool(true)),
        ]))
    );
    assert_eq!(
        serializer.deserialize_state("{\"step\":"),
        Err(CodecError::Parse {
            line: 1,
            column: 8,
            message: "EOF while parsing a value at line 1 column 8".to_string(),
        })
    );
}

#[test]
fn batch_serialize_states_keeps_input_order() {
    let mut serializer = StateSerializer::new(false);
    assert_eq!(
        serializer.batch_serialize_states(vec![snapshot(1), snapshot(2), Value::Null]),
        Ok(vec![
            "{\"step\":1,\"done\":false}".to_string(),
            "{\"step\":2,\"done\":true}".to_string(),
            "null".to_string(),
        ])
    );
    assert_eq!(serializer.batch_serialize_states(vec![]), Ok(vec![]));
}

#[test]
fn states_equal_is_byte_equality() {
    let serializer = StateSerializer::new(false);
    assert_eq!(serializer.states_equal("{\"a\":1,\"b\":2}", "{\"a\":1,\"b\":2}"), true);
    assert_eq!(serializer.states_equal("{\"a\":1,\"b\":2}", "{\"b\":2,\"a\":1}"), false);
    assert_eq!(serializer.states_equal("{\"a\":1}", "{\"a\": 1}"), false);
    assert_eq!(serializer.states_equal("", ""), true);
    assert_eq!(serializer.states_equal("1", "1.0"), false);
}

#[test]
fn states_equal_holds_of_a_state_and_itself() {
    let mut serializer = StateSerializer::new(true);
    let written = serializer.serialize_state(&snapshot(5)).unwrap();
    assert!(serializer.states_equal(&written, &written));
    let again = serializer.serialize_state(&snapshot(5)).unwrap();
    assert!(serializer.states_equal(&written, &again));
    let other = serializer.serialize_state(&snapshot(6)).unwrap();
    assert!(!serializer.states_equal(&written, &other));
}

#[test]
fn get_state_size_is_the_length_of_the_text() {
    let mut serializer = StateSerializer::new(false);
    let written = serializer.serialize_state(&snapshot(10)).unwrap();
    assert_eq!(written, "{\"step\":10,\"done\":true}");
    assert_eq!(serializer.get_state_size(&snapshot(10)), Ok(written.len()));
    assert_eq!(serializer.get_state_size(&snapshot(10)), Ok(23));
}

#[test]
fn state_buffer_keeps_its_floor() {
    let mut serializer = StateSerializer::new(false);
    serializer.clear_buffer();
    assert!(serializer.get_buffer_capacity() >= 8192);
    let long = Value::from("z".repeat(200_000));
    assert_eq!(serializer.get_state_size(&long), Ok(200_002));
    assert!(serializer.get_buffer_capacity() >= 200_002);
    serializer.clear_buffer();
    assert!(serializer.get_buffer_capacity() >= 8192);
    assert!(serializer.get_buffer_capacity() < 200_002);
}

#[test]
fn quick_state_functions_do_what_the_methods_do() {
    let mut serializer = StateSerializer::new(false);
    assert_eq!(quick_serialize_state(&snapshot(4)), serializer.serialize_state(&snapshot(4)));
    assert_eq!(
        quick_deserialize_state("[1.5]"),
        Ok(HostValue::Array(vec![HostValue::Number(HostNumber::Double(1.5f64.to_bits()))]))
    );
    assert_eq!(quick_deserialize_state("nul"), serializer.deserialize_state("nul"));
}
