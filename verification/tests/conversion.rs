use js_boundary::convert::{decode, encode, from_js, into_js, HostData, HostType, HostValue};
use js_boundary::decimal::{parse_i32, render_i32, render_usize};
use js_boundary::error::Error;
use js_boundary::exception::{outbound, Completion};
use js_boundary::value::{Tag, Value};

fn text(s: &str) -> Value {
    Value::String(s.to_string())
}

fn mismatch(expected: Tag, actual: Tag) -> Result<HostValue, Error> {
    Err(Error::TypeMismatch { expected, actual })
}

#[test]
fn round_trip_of_every_host_type() {
    let samples = vec![
        HostValue::Unit,
        HostValue::Bool(true),
        HostValue::Bool(false),
        HostValue::Int(0),
        HostValue::Int(-1),
        HostValue::Int(i32::MAX),
        HostValue::Int(i32::MIN),
        HostValue::Text(String::new()),
        HostValue::Text("12".to_string()),
        HostValue::Text("héllo".to_string()),
        HostValue::Any(Value::Null),
        HostValue::Any(Value::Float(0x4008_0000_0000_0000)),
        HostValue::Any(Value::Object(3)),
    ];
    for h in samples {
        let t = h.host_type();
        assert_eq!(decode(t, encode(h.clone())), Ok(h));
    }
}

#[test]
fn encode_keeps_the_data() {
    assert_eq!(encode(HostValue::Unit), Value::Undefined);
    assert_eq!(encode(HostValue::Bool(true)), Value::Bool(true));
    assert_eq!(encode(HostValue::Int(-7)), Value::Int(-7));
    assert_eq!(encode(HostValue::Text("x".to_string())), text("x"));
    assert_eq!(encode(HostValue::Any(Value::Array(2))), Value::Array(2));
}

#[test]
fn numbers_read_as_text() {
    assert_eq!(decode(HostType::Text, Value::Int(3)), Ok(HostValue::Text("3".to_string())));
    assert_eq!(decode(HostType::Text, Value::Int(0)), Ok(HostValue::Text("0".to_string())));
    assert_eq!(decode(HostType::Text, Value::Int(-120)), Ok(HostValue::Text("-120".to_string())));
    assert_eq!(
        decode(HostType::Text, Value::Int(i32::MIN)),
        Ok(HostValue::Text("-2147483648".to_string()))
    );
    assert_eq!(decode(HostType::Text, Value::Bool(true)), Ok(HostValue::Text("true".to_string())));
    assert_eq!(decode(HostType::Text, Value::Bool(false)), Ok(HostValue::Text("false".to_string())));
}

#[test]
fn numeric_text_reads_as_a_number() {
    assert_eq!(decode(HostType::Int, text("3")), Ok(HostValue::Int(3)));
    assert_eq!(decode(HostType::Int, text("-3")), Ok(HostValue::Int(-3)));
    assert_eq!(decode(HostType::Int, text("007")), Ok(HostValue::Int(7)));
    assert_eq!(decode(HostType::Int, text("-0")), Ok(HostValue::Int(0)));
    assert_eq!(decode(HostType::Int, text("2147483647")), Ok(HostValue::Int(i32::MAX)));
    assert_eq!(decode(HostType::Int, text("-2147483648")), Ok(HostValue::Int(i32::MIN)));
    assert_eq!(decode(HostType::Int, Value::Bool(true)), Ok(HostValue::Int(1)));
    assert_eq!(decode(HostType::Int, Value::Bool(false)), Ok(HostValue::Int(0)));
}

#[test]
fn text_that_is_no_number_is_a_mismatch() {
    for s in ["", "-", "a", "3a", "+3", " 3", "3.0", "--3", "2147483648", "-2147483649",
        "99999999999999999999999999", "٣"]
    {
        assert_eq!(decode(HostType::Int, text(s)), mismatch(Tag::Int, Tag::String));
        assert_eq!(parse_i32(s), None);
    }
}

#[test]
fn a_number_through_text_is_unchanged() {
    for n in [0, 1, -1, 9, 10, 11, 99, 100, 12345, -12345, i32::MAX, i32::MIN] {
        assert_eq!(render_i32(n), n.to_string());
        assert_eq!(parse_i32(&render_i32(n)), Some(n));
        let as_text = decode(HostType::Text, Value::Int(n)).unwrap();
        assert_eq!(decode(HostType::Int, encode(as_text)), Ok(HostValue::Int(n)));
    }
    assert_eq!(render_usize(0), "0");
    assert_eq!(render_usize(1234567890), "1234567890");
}

#[test]
fn kinds_that_do_not_coerce() {
    assert_eq!(decode(HostType::Int, Value::Object(1)), mismatch(Tag::Int, Tag::Object));
    assert_eq!(decode(HostType::Int, Value::Undefined), mismatch(Tag::Int, Tag::Undefined));
    assert_eq!(decode(HostType::Int, Value::Float(0)), mismatch(Tag::Int, Tag::Float));
    assert_eq!(decode(HostType::Text, Value::Object(1)), mismatch(Tag::String, Tag::Object));
    assert_eq!(decode(HostType::Text, Value::Null), mismatch(Tag::String, Tag::Null));
    assert_eq!(decode(HostType::Text, Value::Function(1)), mismatch(Tag::String, Tag::Function));
    assert_eq!(decode(HostType::Bool, text("true")), mismatch(Tag::Bool, Tag::String));
    assert_eq!(decode(HostType::Bool, Value::Exception(1)), mismatch(Tag::Bool, Tag::Exception));
    assert_eq!(decode(HostType::Unit, Value::Int(0)), mismatch(Tag::Undefined, Tag::Int));
    assert_eq!(decode(HostType::Unit, Value::Array(1)), mismatch(Tag::Undefined, Tag::Array));
}

#[test]
fn unit_and_bool() {
    assert_eq!(decode(HostType::Unit, Value::Undefined), Ok(HostValue::Unit));
    assert_eq!(decode(HostType::Unit, Value::Null), Ok(HostValue::Unit));
    assert_eq!(decode(HostType::Bool, Value::Int(0)), Ok(HostValue::Bool(false)));
    assert_eq!(decode(HostType::Bool, Value::Int(-5)), Ok(HostValue::Bool(true)));
    assert_eq!(decode(HostType::Bool, Value::Bool(false)), Ok(HostValue::Bool(false)));
}

#[test]
fn tags_and_cells() {
    assert_eq!(Value::Undefined.tag(), Tag::Undefined);
    assert_eq!(Value::Float(1).tag(), Tag::Float);
    assert_eq!(text("x").tag(), Tag::String);
    assert_eq!(Value::Exception(4).tag(), Tag::Exception);
    assert_eq!(Value::Object(4).cell(), Some(4));
    assert_eq!(Value::Function(5).cell(), Some(5));
    assert_eq!(text("x").cell(), None);
    assert_eq!(Value::Int(4).cell(), None);
    assert_eq!(text("x").duplicate(), text("x"));
    assert_eq!(Tag::Function.name(), "function");
    assert_eq!(HostType::Text.expected(), Tag::String);
}

#[test]
fn messages() {
    assert_eq!(
        Error::TypeMismatch { expected: Tag::Int, actual: Tag::Object }.message(),
        "type mismatch: expected int, found object"
    );
    assert_eq!(
        Error::MissingArgument { index: 1, supplied: 1 }.message(),
        "missing argument 1: only 1 supplied"
    );
    assert_eq!(Error::EngineException { message: "boom".to_string() }.message(), "boom");
    assert_eq!(Error::AllocationFailure.message(), "out of memory");
}

#[test]
fn a_host_failure_is_thrown_with_its_message() {
    assert_eq!(
        outbound(Err(Error::EngineException { message: "boom".to_string() })),
        Completion::Throw { message: "boom".to_string() }
    );
    assert_eq!(
        outbound(Err(Error::TypeMismatch { expected: Tag::String, actual: Tag::Null })),
        Completion::Throw { message: "type mismatch: expected string, found null".to_string() }
    );
    assert_eq!(
        outbound(Err(Error::AllocationFailure)),
        Completion::Throw { message: "out of memory".to_string() }
    );
    assert_eq!(outbound(Ok(HostValue::Int(3))), Completion::Return(Value::Int(3)));
    assert_eq!(outbound(Ok(HostValue::Unit)), Completion::Return(Value::Undefined));
}

#[test]
fn typed_round_trips() {
    for n in [0, 1, -1, i32::MAX, i32::MIN] {
        assert_eq!(from_js::<i32>(into_js(n)), Ok(n));
    }
    for b in [true, false] {
        assert_eq!(from_js::<bool>(into_js(b)), Ok(b));
    }
    for s in ["", "a", "12", "-", "héllo"] {
        assert_eq!(from_js::<String>(into_js(s.to_string())), Ok(s.to_string()));
    }
    assert_eq!(from_js::<()>(into_js(())), Ok(()));
    for v in [Value::Undefined, Value::Null, Value::Int(2), Value::Object(7), Value::Float(1)] {
        assert_eq!(from_js::<Value>(into_js(v.clone())), Ok(v));
    }
}

#[test]
fn typed_conversions_follow_the_coercions() {
    assert_eq!(from_js::<String>(Value::Int(3)), Ok("3".to_string()));
    assert_eq!(from_js::<i32>(text("3")), Ok(3));
    assert_eq!(
        from_js::<i32>(text("three")),
        Err(Error::TypeMismatch { expected: Tag::Int, actual: Tag::String })
    );
    assert_eq!(
        from_js::<()>(Value::Bool(true)),
        Err(Error::TypeMismatch { expected: Tag::Undefined, actual: Tag::Bool })
    );
    assert_eq!(<i32 as HostData>::kind(), HostType::Int);
    assert_eq!(<String as HostData>::kind(), HostType::Text);
    assert_eq!(7.into_host(), HostValue::Int(7));
    assert_eq!(<bool as HostData>::from_host(HostValue::Int(1)), None);
    assert_eq!(<bool as HostData>::from_host(HostValue::Bool(true)), Some(true));
}
