use std::collections::HashMap;
use oc_user::output::OutputKind;
use oc_user::tasks::{TaskCollector, TaskEvent, TaskInfo, TaskValue};

fn reply(id: u64, error: &str, result: &str) -> TaskEvent {
    TaskEvent::Received(TaskInfo { operator_id: id, error: error.to_string(), result: result.to_string() })
}

#[test]
fn decode_i32_and_default() {
    assert!(matches!(TaskValue::decode(Some(OutputKind::I32), "-12".to_string()), TaskValue::I32(-12)));
    assert!(matches!(TaskValue::decode(Some(OutputKind::I32), "abc".to_string()), TaskValue::I32(0)));
    assert!(matches!(TaskValue::decode(Some(OutputKind::I32), "".to_string()), TaskValue::I32(0)));
}

#[test]
fn decode_json_lists() {
    match TaskValue::decode(Some(OutputKind::VecI32), "[1, -2, 3]".to_string()) {
        TaskValue::VecI32(v) => assert_eq!(v, vec![1, -2, 3]),
        _ => panic!("wrong kind"),
    }
    match TaskValue::decode(Some(OutputKind::VecI32), "not json".to_string()) {
        TaskValue::VecI32(v) => assert!(v.is_empty()),
        _ => panic!("wrong kind"),
    }
    match TaskValue::decode(Some(OutputKind::VecVecI32), "[[1,2],[3]]".to_string()) {
        TaskValue::VecVecI32(v) => assert_eq!(v, vec![vec![1, 2], vec![3]]),
        _ => panic!("wrong kind"),
    }
    match TaskValue::decode(Some(OutputKind::VecVecI32), "[1,2]".to_string()) {
        TaskValue::VecVecI32(v) => assert!(v.is_empty()),
        _ => panic!("wrong kind"),
    }
}

#[test]
fn decode_text_kinds() {
    match TaskValue::decode(Some(OutputKind::Str), "hello".to_string()) {
        TaskValue::Str(s) => assert_eq!(s, "hello"),
        _ => panic!("wrong kind"),
    }
    match TaskValue::decode(Some(OutputKind::F32), "1.5".to_string()) {
        TaskValue::F32Text(s) => assert_eq!(s, "1.5"),
        _ => panic!("wrong kind"),
    }
    match TaskValue::decode(Some(OutputKind::VecVecF32), "[[1.5]]".to_string()) {
        TaskValue::VecVecF32Text(s) => assert_eq!(s, "[[1.5]]"),
        _ => panic!("wrong kind"),
    }
    assert!(matches!(TaskValue::decode(None, "7".to_string()), TaskValue::Nothing));
}

#[test]
fn from_parts_uses_given_reading() {
    match TaskValue::from_parts(Some(OutputKind::VecI32), "ignored".to_string(), Some(vec![9, 8]), None) {
        TaskValue::VecI32(v) => assert_eq!(v, vec![9, 8]),
        _ => panic!("wrong kind"),
    }
    match TaskValue::from_parts(Some(OutputKind::VecVecI32), "x".to_string(), Some(vec![1]), None) {
        TaskValue::VecVecI32(v) => assert!(v.is_empty()),
        _ => panic!("wrong kind"),
    }
    assert!(matches!(
        TaskValue::from_parts(Some(OutputKind::I32), "5".to_string(), Some(vec![1]), None),
        TaskValue::I32(5)
    ));
}

#[test]
fn collector_keeps_only_waiting_successes() {
    let ids = vec![3u64, 1];
    let mut c = TaskCollector::new(&ids);
    assert!(!c.is_done());
    c.on_event(reply(3, "boom", "ignored"));
    c.on_event(reply(9, "", "not asked"));
    c.on_event(TaskEvent::Unreadable);
    assert!(!c.is_done());
    c.on_event(reply(3, "", "30"));
    c.on_event(reply(3, "", "31"));
    assert!(!c.is_done());
    c.on_event(reply(1, "", "[4,5]"));
    assert!(c.is_done());
    let mut expect = HashMap::new();
    expect.insert(3u64, "i32".to_string());
    expect.insert(1u64, "Vec<i32>".to_string());
    let out = c.finish(&ids, &expect);
    assert_eq!(out.len(), 2);
    assert!(matches!(out[0], TaskValue::I32(30)));
    match &out[1] {
        TaskValue::VecI32(v) => assert_eq!(v, &vec![4, 5]),
        _ => panic!("wrong kind"),
    }
}

#[test]
fn collector_with_no_ids_is_done() {
    let ids: Vec<u64> = vec![];
    let c = TaskCollector::new(&ids);
    assert!(c.is_done());
    assert!(c.finish(&ids, &HashMap::new()).is_empty());
}

#[test]
fn repeated_id_gets_result_once() {
    let ids = vec![5u64, 5];
    let mut c = TaskCollector::new(&ids);
    c.on_event(reply(5, "", "hi"));
    assert!(c.is_done());
    let mut expect = HashMap::new();
    expect.insert(5u64, "String".to_string());
    let out = c.finish(&ids, &expect);
    match (&out[0], &out[1]) {
        (TaskValue::Str(a), TaskValue::Str(b)) => {
            assert_eq!(a, "hi");
            assert_eq!(b, "");
        }
        _ => panic!("wrong kind"),
    }
}

#[test]
fn unknown_or_missing_kind_gives_nothing() {
    let ids = vec![1u64, 2];
    let mut c = TaskCollector::new(&ids);
    c.on_event(reply(1, "", "1"));
    c.on_event(reply(2, "", "2"));
    let mut expect = HashMap::new();
    expect.insert(1u64, "u8".to_string());
    let out = c.finish(&ids, &expect);
    assert!(matches!(out[0], TaskValue::Nothing));
    assert!(matches!(out[1], TaskValue::Nothing));
}
