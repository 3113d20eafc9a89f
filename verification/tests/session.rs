use oc_user::keep_alive::{KeepAliveAction, KeepAlivePhase};
use oc_user::protocol::{
    direct_send_error_msg, send_big_payload_msg_to_verifier, send_msg_to_verifier,
    send_msg_to_verifier_by_event_id_op_id, user_close, user_hello, user_init, user_run, BaseMsg,
    Body, MsgInfo, AUTH_CODE,
};
use oc_user::script::add;
use oc_user::user::{OcUser, RunCodeError};

fn text_body(b: &Body) -> &str {
    match b {
        Body::Text(t) => t.as_str(),
        _ => panic!("not text"),
    }
}

#[test]
fn msg_info_carries_auth_code() {
    let m = MsgInfo::new(7, "x".to_string());
    assert_eq!(m.operator_id, 7);
    assert_eq!(m.payload, "x");
    assert_eq!(m.auth_code, 0x24420251131);
    assert_eq!(AUTH_CODE, 0x24420251131);
}

#[test]
fn hello_and_close_messages() {
    let h = user_hello(99);
    assert_eq!(h.route, "user/hello");
    assert_eq!(h.event_id, 99);
    assert_eq!(h.op_id, 0);
    assert_eq!(text_body(&h.body), "");
    assert!(h.big_payload.is_none());
    let c = user_close(12);
    assert_eq!(c.route, "user/close");
    assert_eq!(c.event_id, 12);
    assert_eq!(text_body(&c.body), "");
    assert!(c.big_payload.is_none());
}

#[test]
fn init_and_run_messages() {
    let i = user_init(5, "code".to_string(), 4);
    assert_eq!(i.route, "user/init");
    assert_eq!(i.event_id, 5);
    assert!(matches!(i.body, Body::InitCode(ref b) if b.num == 4));
    assert_eq!(i.big_payload.as_deref(), Some("code"));
    let r = user_run(5, 3, "f".to_string(), "[1]".to_string(), 4);
    assert_eq!(r.route, "user/run");
    assert_eq!(r.op_id, 3);
    assert!(matches!(r.body, Body::RunCode(ref p) if p.func == "f" && p.output == 4));
    assert_eq!(r.big_payload.as_deref(), Some("[1]"));
}

#[test]
fn generic_messages() {
    let e = direct_send_error_msg("bad".to_string());
    assert_eq!(e.route, "error");
    assert_eq!((e.event_id, e.op_id), (0, 0));
    assert_eq!(text_body(&e.body), "bad");
    let v = send_msg_to_verifier("r".to_string(), "m".to_string(), 44);
    assert_eq!((v.route.as_str(), v.event_id, v.op_id), ("r", 44, 0));
    let o = send_msg_to_verifier_by_event_id_op_id("r".to_string(), 1, 2, "m".to_string());
    assert_eq!((o.event_id, o.op_id), (1, 2));
    assert!(o.big_payload.is_none());
    let b = send_big_payload_msg_to_verifier(1, 2, "r".to_string(), "m".to_string(), "big".to_string());
    assert_eq!(b.big_payload.as_deref(), Some("big"));
    assert_eq!(text_body(&b.body), "m");
}

#[test]
fn get_msg_keeps_first_reading() {
    let mut b = BaseMsg::from_wire(8, "enc".to_string());
    assert!(!b.is_decoded());
    let first = b.get_msg(MsgInfo::new(1, "one".to_string()));
    assert_eq!(first.payload, "one");
    assert!(b.is_decoded());
    let second = b.get_msg(MsgInfo::new(2, "two".to_string()));
    assert_eq!(second.payload, "one");
    assert_eq!(second.operator_id, 1);
    assert_eq!(b.event_id, 8);
    assert_eq!(b.payload, "enc");
}

#[test]
fn run_code_numbers_runs() {
    let mut u = OcUser::new(77);
    let a = u.run_code("f".to_string(), "[1]".to_string(), "i32".to_string()).unwrap();
    let b = u.run_code("g".to_string(), "[2]".to_string(), "Vec<Vec<f32>>".to_string()).unwrap();
    assert_eq!(a.op_id, 0);
    assert_eq!(b.op_id, 1);
    assert_eq!(b.message.event_id, 77);
    assert_eq!(b.message.op_id, 1);
    assert!(matches!(b.message.body, Body::RunCode(ref p) if p.func == "g" && p.output == 7));
    assert_eq!(b.message.big_payload.as_deref(), Some("[2]"));
    assert_eq!(u.task_array(), &vec![0, 1]);
    assert_eq!(u.expect_results().get(&1).map(|s| s.as_str()), Some("Vec<Vec<f32>>"));
}

#[test]
fn run_code_refuses_unknown_type() {
    let mut u = OcUser::new(1);
    let r = u.run_code("f".to_string(), "[]".to_string(), "u8".to_string());
    assert!(matches!(r, Err(RunCodeError::UnsupportedOutputType)));
    assert!(u.task_array().is_empty());
    let ok = u.run_code("f".to_string(), "[]".to_string(), "String".to_string()).unwrap();
    assert_eq!(ok.op_id, 0);
    assert_eq!(u.close().event_id, 1);
    assert_eq!(u.close().route, "user/close");
}

#[test]
fn keep_alive_schedule() {
    let mut p = KeepAlivePhase::Start;
    let mut seen = Vec::new();
    for _ in 0..8 {
        let (a, next) = p.next();
        seen.push(a);
        p = next;
    }
    assert_eq!(
        seen,
        vec![
            KeepAliveAction::Sleep(1000),
            KeepAliveAction::SendHello,
            KeepAliveAction::Sleep(1000),
            KeepAliveAction::SendInit,
            KeepAliveAction::Sleep(60000),
            KeepAliveAction::SendHello,
            KeepAliveAction::Sleep(60000),
            KeepAliveAction::SendHello,
        ]
    );
}

#[test]
fn add_sums() {
    assert_eq!(add(2, 3), 5);
    assert_eq!(add(-7, 7), 0);
    assert_eq!(add(i64::MAX, 0), i64::MAX);
}
