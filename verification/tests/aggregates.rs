use js_boundary::aggregate::{
    decode_variant, element_read, element_write, encode_variant, field_read, field_write,
    finish_member, first_present, payload_read, payload_write, variant_probe,
};
use js_boundary::convert::{HostType, HostValue};
use js_boundary::error::Error;
use js_boundary::object::{Failure, Object, Reply, Request};
use js_boundary::value::{Tag, Value};

fn text(s: &str) -> Value {
    Value::String(s.to_string())
}

fn tags(names: &[&str]) -> Vec<String> {
    names.iter().map(|n| n.to_string()).collect()
}

fn object(cell: u64) -> Object {
    Object::from_value(Value::Object(cell)).unwrap()
}

#[test]
fn fields_are_properties_under_their_names() {
    let o = object(4);
    assert_eq!(field_read(&o, "int"), Request::GetProperty { object: 4, key: text("int") });
    assert_eq!(field_read(&o, "7"), Request::GetIndexed { object: 4, index: 7 });
    assert_eq!(
        field_write(&o, "text", HostValue::Text("x".to_string())),
        Request::SetProperty { object: 4, key: text("text"), value: text("x") }
    );
    assert_eq!(
        field_write(&o, "int", HostValue::Int(5)),
        Request::SetProperty { object: 4, key: text("int"), value: Value::Int(5) }
    );
}

#[test]
fn tuple_members_go_by_position() {
    assert_eq!(element_read(6, 0), Request::GetIndexed { object: 6, index: 0 });
    assert_eq!(element_read(6, u32::MAX), Request::GetIndexed { object: 6, index: u32::MAX });
    assert_eq!(
        element_write(6, 1, HostValue::Bool(true)),
        Request::SetProperty { object: 6, key: Value::Int(1), value: Value::Bool(true) }
    );
    assert_eq!(
        element_write(6, 2147483647, HostValue::Unit),
        Request::SetProperty { object: 6, key: Value::Int(i32::MAX), value: Value::Undefined }
    );
    assert_eq!(
        element_write(6, 2147483648, HostValue::Unit),
        Request::SetProperty { object: 6, key: text("2147483648"), value: Value::Undefined }
    );
}

#[test]
fn a_member_that_does_not_decode_is_named() {
    assert_eq!(
        finish_member("int", HostType::Int, Reply::Value(Value::Object(1))),
        Err(Failure::Refused(Error::Member {
            name: "int".to_string(),
            expected: Tag::Int,
            actual: Tag::Object
        }))
    );
    assert_eq!(
        Error::Member { name: "int".to_string(), expected: Tag::Int, actual: Tag::Object }
            .message(),
        "member int: type mismatch: expected int, found object"
    );
    assert_eq!(
        finish_member("int", HostType::Int, Reply::Value(text("12"))),
        Ok(HostValue::Int(12))
    );
    assert_eq!(finish_member("int", HostType::Int, Reply::Exception), Err(Failure::Raised));
}

#[test]
fn a_unit_variant_is_its_tag() {
    let t = tags(&["A", "B", "C"]);
    assert_eq!(encode_variant(&t, 0), Some(text("A")));
    assert_eq!(encode_variant(&t, 2), Some(text("C")));
    assert_eq!(encode_variant(&t, 3), None);
    for which in 0..3 {
        assert_eq!(decode_variant(&t, &encode_variant(&t, which).unwrap()), Ok(which));
    }
}

#[test]
fn a_value_that_is_no_variant() {
    let t = tags(&["A", "B"]);
    assert_eq!(
        decode_variant(&t, &text("a")),
        Err(Error::UnknownVariant { tag: "a".to_string() })
    );
    assert_eq!(
        decode_variant(&Vec::new(), &text("A")),
        Err(Error::UnknownVariant { tag: "A".to_string() })
    );
    assert_eq!(
        decode_variant(&t, &Value::Int(0)),
        Err(Error::TypeMismatch { expected: Tag::String, actual: Tag::Int })
    );
    assert_eq!(Error::UnknownVariant { tag: "a".to_string() }.message(), "unknown variant a");
}

#[test]
fn a_repeated_tag_decodes_to_its_first_variant() {
    let t = tags(&["A", "B", "A"]);
    assert_eq!(decode_variant(&t, &text("A")), Ok(0));
    assert_eq!(decode_variant(&t, &text("B")), Ok(1));
}

#[test]
fn a_variant_with_payload_is_a_single_key_object() {
    let o = object(2);
    assert_eq!(variant_probe(&o, "Foo"), Request::HasProperty { object: 2, key: text("Foo") });
    assert_eq!(payload_read(&o, "Foo"), Request::GetProperty { object: 2, key: text("Foo") });
    assert_eq!(
        payload_write(&o, "Foo", Value::Array(9)),
        Request::SetProperty { object: 2, key: text("Foo"), value: Value::Array(9) }
    );
    assert_eq!(first_present(&vec![false, true, true]), Some(1));
    assert_eq!(first_present(&vec![true]), Some(0));
    assert_eq!(first_present(&vec![false, false]), None);
    assert_eq!(first_present(&vec![]), None);
}
