use json_bridge::error::HostFault;
use json_bridge::host::{HostNumber, HostValue};

#[test]
fn builders_make_the_plain_values() {
    assert_eq!(HostValue::null(), HostValue::Null);
    assert_eq!(HostValue::boolean(true), HostValue::Bool(true));
    assert_eq!(HostValue::boolean(false), HostValue::Bool(false));
    assert_eq!(
        HostValue::number(HostNumber::Integer(-7)),
        HostValue::Number(HostNumber::Integer(-7))
    );
    assert_eq!(
        HostValue::number(HostNumber::Double(1.5f64.to_bits())),
        HostValue::Number(HostNumber::Double(0x3ff8_0000_0000_0000))
    );
    assert_eq!(HostValue::string("h\u{e9}"), HostValue::String("h\u{e9}".to_string()));
    assert_eq!(HostValue::new_array(), HostValue::Array(vec![]));
    assert_eq!(HostValue::new_object(), HostValue::Object(vec![]));
}

#[test]
fn append_keeps_the_order_of_items() {
    let mut array = HostValue::new_array();
    assert_eq!(array.append(HostValue::Bool(true)), Ok(()));
    assert_eq!(array.append(HostValue::Null), Ok(()));
    assert_eq!(array.append(HostValue::string("x")), Ok(()));
    assert_eq!(
        array,
        HostValue::Array(vec![
            HostValue::Bool(true),
            HostValue::Null,
            HostValue::String("x".to_string()),
        ])
    );
}

#[test]
fn append_is_refused_by_what_is_no_array() {
    let mut object = HostValue::new_object();
    assert_eq!(object.append(HostValue::Null), Err(HostFault::NotAnArray));
    assert_eq!(object, HostValue::Object(vec![]));
    let mut text = HostValue::string("abc");
    assert_eq!(text.append(HostValue::Null), Err(HostFault::NotAnArray));
    assert_eq!(text, HostValue::String("abc".to_string()));
}

#[test]
fn set_property_appends_new_keys_in_order() {
    let mut object = HostValue::new_object();
    assert_eq!(object.set_property("b", HostValue::Bool(true)), Ok(()));
    assert_eq!(object.set_property("a", HostValue::Null), Ok(()));
    assert_eq!(
        object,
        HostValue::Object(vec![
            ("b".to_string(), HostValue::Bool(true)),
            ("a".to_string(), HostValue::Null),
        ])
    );
}

#[test]
fn set_property_replaces_a_present_key_in_place() {
    let mut object = HostValue::new_object();
    assert_eq!(object.set_property("a", HostValue::Number(HostNumber::Integer(1))), Ok(()));
    assert_eq!(object.set_property("b", HostValue::Number(HostNumber::Integer(2))), Ok(()));
    assert_eq!(object.set_property("a", HostValue::Number(HostNumber::Integer(3))), Ok(()));
    assert_eq!(
        object,
        HostValue::Object(vec![
            ("a".to_string(), HostValue::Number(HostNumber::Integer(3))),
            ("b".to_string(), HostValue::Number(HostNumber::Integer(2))),
        ])
    );
}

#[test]
fn set_property_is_refused_by_what_is_no_object() {
    let mut array = HostValue::new_array();
    assert_eq!(array.set_property("a", HostValue::Null), Err(HostFault::NotAnObject));
    assert_eq!(array, HostValue::Array(vec![]));
    let mut null = HostValue::null();
    assert_eq!(null.set_property("a", HostValue::Null), Err(HostFault::NotAnObject));
    assert_eq!(null, HostValue::Null);
}

#[test]
fn clone_copies_the_whole_tree() {
    let value = HostValue::Object(vec![
        (
            "items".to_string(),
            HostValue::Array(vec![
                HostValue::Number(HostNumber::Integer(1)),
                HostValue::Object(vec![("deep".to_string(), HostValue::String("x".to_string()))]),
            ]),
        ),
        ("flag".to_string(), HostValue::Bool(false)),
    ]);
    let copy = value.clone();
    assert_eq!(copy, value);
}
