use js_boundary::object::{finish_set, Disposal, Reply};
use js_boundary::value::Value;
use js_boundary::ownership::{adopted, transfer_for, Ledger, Transfer};

fn state(l: &Ledger) -> (u64, u64, u64) {
    (l.count(), l.host(), l.engine())
}

#[test]
fn create_set_get_remove_returns_to_the_baseline() {
    let mut value = Ledger::new(0);
    // created by the engine and handed to the host
    assert!(value.apply(Transfer::Adopt));
    assert_eq!(state(&value), (1, 1, 0));
    // the host keeps a copy and sets the other as a property
    assert!(value.apply(Transfer::Duplicate));
    assert!(value.apply(Transfer::Forget));
    assert_eq!(state(&value), (2, 1, 1));
    // read back
    assert!(value.apply(Transfer::Adopt));
    assert_eq!(state(&value), (3, 2, 1));
    // the property is removed, then every host value is dropped
    assert!(value.apply(Transfer::EngineRelease));
    assert!(value.apply(Transfer::Release));
    assert!(value.apply(Transfer::Release));
    assert_eq!(state(&value), (0, 0, 0));
}

#[test]
fn a_reference_that_is_not_held_cannot_be_given_up() {
    let mut value = Ledger::new(2);
    assert_eq!(state(&value), (2, 0, 2));
    assert!(!value.apply(Transfer::Release));
    assert!(!value.apply(Transfer::Forget));
    assert!(!value.apply(Transfer::Duplicate));
    assert_eq!(state(&value), (2, 0, 2));
    assert!(value.apply(Transfer::EngineRelease));
    assert!(value.apply(Transfer::EngineRelease));
    assert!(!value.apply(Transfer::EngineRelease));
    assert_eq!(state(&value), (0, 0, 0));
}

#[test]
fn the_count_does_not_wrap() {
    let mut value = Ledger::new(u64::MAX);
    assert!(!value.apply(Transfer::Adopt));
    assert_eq!(state(&value), (u64::MAX, 0, u64::MAX));
    let mut value = Ledger::new(u64::MAX - 1);
    assert!(value.apply(Transfer::Adopt));
    assert!(!value.apply(Transfer::Duplicate));
    assert!(value.apply(Transfer::Forget));
    assert_eq!(state(&value), (u64::MAX, 0, u64::MAX));
}

#[test]
fn forgetting_keeps_the_count() {
    let mut value = Ledger::new(1);
    assert!(value.apply(Transfer::Adopt));
    let before = value.count();
    assert!(value.apply(Transfer::Forget));
    assert_eq!(value.count(), before);
    assert_eq!(value.host(), 0);
    assert_eq!(value.engine(), 2);
}

#[test]
fn a_store_settles_the_reference() {
    assert_eq!(transfer_for(Disposal::Forget), Transfer::Forget);
    assert_eq!(transfer_for(Disposal::Release), Transfer::Release);
    // a store that succeeds: the engine holds the reference afterwards
    let mut value = Ledger::new(0);
    assert!(value.apply(Transfer::Adopt));
    let (_, disposal) = finish_set(1);
    assert!(value.apply(transfer_for(disposal)));
    assert_eq!(state(&value), (1, 0, 1));
    // a store that raised: the host's reference is released, nothing is left
    let mut value = Ledger::new(0);
    assert!(value.apply(Transfer::Adopt));
    let (_, disposal) = finish_set(-1);
    assert!(value.apply(transfer_for(disposal)));
    assert_eq!(state(&value), (0, 0, 0));
}

#[test]
fn a_heap_reply_brings_a_reference() {
    assert_eq!(adopted(&Reply::Value(Value::Object(3))), Some(3));
    assert_eq!(adopted(&Reply::Value(Value::Array(4))), Some(4));
    assert_eq!(adopted(&Reply::Value(Value::Function(5))), Some(5));
    assert_eq!(adopted(&Reply::Value(Value::Exception(6))), Some(6));
    assert_eq!(adopted(&Reply::Value(Value::Int(3))), None);
    assert_eq!(adopted(&Reply::Value(Value::String("x".to_string()))), None);
    assert_eq!(adopted(&Reply::Exception), None);
}
