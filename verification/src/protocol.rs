//! The messages exchanged with the verifier service.
//!
//! A message names a route, an event id, the operator id and a body; some
//! carry a large payload beside it. Turning a message into text (JSON, and the
//! encoding keyed by the event id) is left to the caller.
use vstd::prelude::*;

verus! {

/// The authorisation code stamped on every message of this client.
pub const AUTH_CODE: u64 = 0x24420251131;

/// The inner part of a message: who it is about, its text, and the
/// authorisation code.
pub struct MsgInfo {
    pub operator_id: u64,
    pub payload: String,
    pub auth_code: u64,
}

impl MsgInfo {
    /// A message for `operator_id` with text `payload`, stamped with this
    /// client's authorisation code.
    pub fn new(operator_id: u64, payload: String) -> (m: MsgInfo)
        ensures
            m.operator_id == operator_id,
            m.payload == payload,
            m.auth_code == AUTH_CODE,
    {
        MsgInfo { operator_id, payload, auth_code: AUTH_CODE }
    }

    /// A message as read back from the wire, with whatever code it carries.
    pub fn from_parts(operator_id: u64, payload: String, auth_code: u64) -> (m: MsgInfo)
        ensures
            m.operator_id == operator_id,
            m.payload == payload,
            m.auth_code == auth_code,
    {
        MsgInfo { operator_id, payload, auth_code }
    }

    /// The empty message: id 0, empty text, code 0.
    pub fn empty() -> (m: MsgInfo)
        ensures
            m.operator_id == 0,
            m.payload@ == Seq::<char>::empty(),
            m.auth_code == 0,
    {
        MsgInfo { operator_id: 0, payload: String::new(), auth_code: 0 }
    }

    /// An equal copy.
    pub fn duplicate(&self) -> (m: MsgInfo)
        ensures
            m == *self,
    {
        MsgInfo { operator_id: self.operator_id, payload: self.payload.clone(), auth_code: self.auth_code }
    }
}

/// The outer part of a message: its event id and its encoded inner part,
/// with the inner part kept once it has been read.
pub struct BaseMsg {
    pub event_id: u64,
    pub payload: String,
    pub msg_info: MsgInfo,
    pub already_init: bool,
}

impl BaseMsg {
    /// The inner part, once read.
    pub open spec fn cached(&self) -> Option<MsgInfo> {
        if self.already_init {
            Some(self.msg_info)
        } else {
            None
        }
    }

    /// A message with event id `event_id` whose inner part is `msg`, and
    /// `payload` the encoding of `msg` for that event id. The inner part is
    /// not marked as read.
    pub fn new(event_id: u64, msg: MsgInfo, payload: String) -> (b: BaseMsg)
        ensures
            b.event_id == event_id,
            b.payload == payload,
            b.cached() is None,
    {
        BaseMsg { event_id, payload, msg_info: msg, already_init: false }
    }

    /// A message as read from the wire: only its event id and encoded payload.
    pub fn from_wire(event_id: u64, payload: String) -> (b: BaseMsg)
        ensures
            b.event_id == event_id,
            b.payload == payload,
            b.cached() is None,
    {
        BaseMsg { event_id, payload, msg_info: MsgInfo::empty(), already_init: false }
    }

    /// Whether the inner part has been read already.
    pub fn is_decoded(&self) -> (r: bool)
        ensures
            r == (self.cached() is Some),
    {
        self.already_init
    }

    /// The inner part. The first call keeps `decoded`, the inner part read
    /// from `payload`, and returns it; every later call returns the kept one
    /// and ignores its argument.
    pub fn get_msg(&mut self, decoded: MsgInfo) -> (m: MsgInfo)
        ensures
            get_msg_post(*old(self), decoded, *final(self), m),
    {
        if self.already_init {
            self.msg_info.duplicate()
        } else {
            let kept = decoded.duplicate();
            self.msg_info = decoded;
            self.already_init = true;
            kept
        }
    }
}

/// What `get_msg` does: the event id and payload stay, the returned inner part
/// is the kept one if there was one and `decoded` otherwise, and it is kept.
pub open spec fn get_msg_post(before: BaseMsg, decoded: MsgInfo, after: BaseMsg, m: MsgInfo) -> bool {
    &&& after.event_id == before.event_id
    &&& after.payload == before.payload
    &&& m == (match before.cached() {
        Some(c) => c,
        None => decoded,
    })
    &&& after.cached() == Some(m)
}

/// Once the inner part of a message has been read, every later read gives
/// the same inner part, whatever is handed in.
pub proof fn lemma_get_msg_stable(
    b0: BaseMsg,
    d1: MsgInfo,
    b1: BaseMsg,
    m1: MsgInfo,
    d2: MsgInfo,
    b2: BaseMsg,
    m2: MsgInfo,
)
    requires
        get_msg_post(b0, d1, b1, m1),
        get_msg_post(b1, d2, b2, m2),
    ensures
        m2 == m1,
        b2.cached() == b1.cached(),
{
}

/// The body sent to the service when a user starts: how many workers it runs.
pub struct UserInitCode {
    pub num: u32,
}

/// The service's answer to the start of a user.
pub struct UserInitCodeResult {
    pub succ: bool,
    pub payload: String,
}

/// The body of a run request: the function to call and the code of the
/// result kind.
pub struct RunCodePayload {
    pub func: String,
    pub output: i16,
}

/// What the inner part of a message says: plain text, or one of the
/// structured bodies, which are written as JSON.
pub enum Body {
    Text(String),
    InitCode(UserInitCode),
    RunCode(RunCodePayload),
}

/// A message ready to be written out and sent: route, event id, operator id
/// and body of the inner part, and a large payload to be sent beside it
/// (encoded for the event id), if any.
pub struct Outgoing {
    pub route: String,
    pub event_id: u64,
    pub op_id: u64,
    pub body: Body,
    pub big_payload: Option<String>,
}

/// The error report: route `error`, event id and operator id 0, the text as body.
pub fn direct_send_error_msg(other_msg: String) -> (m: Outgoing)
    ensures
        m.route@ == "error"@,
        m.event_id == 0,
        m.op_id == 0,
        m.body == Body::Text(other_msg),
        m.big_payload is None,
{
    Outgoing {
        route: "error".to_owned(),
        event_id: 0,
        op_id: 0,
        body: Body::Text(other_msg),
        big_payload: None,
    }
}

/// A text message on `route` under a fresh event id `event_id` (drawn at
/// random by the caller), operator id 0.
pub fn send_msg_to_verifier(route: String, other_msg: String, event_id: u64) -> (m: Outgoing)
    ensures
        m.route == route,
        m.event_id == event_id,
        m.op_id == 0,
        m.body == Body::Text(other_msg),
        m.big_payload is None,
{
    Outgoing { route, event_id, op_id: 0, body: Body::Text(other_msg), big_payload: None }
}

/// A text message on `route` for a given event id and operator id.
pub fn send_msg_to_verifier_by_event_id_op_id(
    route: String,
    event_id: u64,
    op_id: u64,
    other_msg: String,
) -> (m: Outgoing)
    ensures
        m.route == route,
        m.event_id == event_id,
        m.op_id == op_id,
        m.body == Body::Text(other_msg),
        m.big_payload is None,
{
    Outgoing { route, event_id, op_id, body: Body::Text(other_msg), big_payload: None }
}

/// A text message on `route` for a given event id and operator id, with a
/// large payload beside it.
pub fn send_big_payload_msg_to_verifier(
    event_id: u64,
    op_id: u64,
    route: String,
    other_msg: String,
    big_paylaod_msg: String,
) -> (m: Outgoing)
    ensures
        m.route == route,
        m.event_id == event_id,
        m.op_id == op_id,
        m.body == Body::Text(other_msg),
        m.big_payload == Some(big_paylaod_msg),
{
    Outgoing {
        route,
        event_id,
        op_id,
        body: Body::Text(other_msg),
        big_payload: Some(big_paylaod_msg),
    }
}

/// The greeting: route `user/hello`, fresh event id `event_id`, empty text.
pub fn user_hello(event_id: u64) -> (m: Outgoing)
    ensures
        m.route@ == "user/hello"@,
        m.event_id == event_id,
        m.op_id == 0,
        m.body matches Body::Text(t) && t@ == Seq::<char>::empty(),
        m.big_payload is None,
{
    send_msg_to_verifier("user/hello".to_owned(), String::new(), event_id)
}

/// The start of a user: route `user/init` under the start event id, the
/// worker count as body and the user's code as large payload.
pub fn user_init(init_event_id: u64, code: String, max_workers: u32) -> (m: Outgoing)
    ensures
        m.route@ == "user/init"@,
        m.event_id == init_event_id,
        m.op_id == 0,
        m.body == Body::InitCode(UserInitCode { num: max_workers }),
        m.big_payload == Some(code),
{
    Outgoing {
        route: "user/init".to_owned(),
        event_id: init_event_id,
        op_id: 0,
        body: Body::InitCode(UserInitCode { num: max_workers }),
        big_payload: Some(code),
    }
}

/// A run request: route `user/run`, the function and result code as body,
/// the arguments as large payload.
pub fn user_run(event_id: u64, op_id: u64, call_func: String, input: String, output: i16) -> (m:
    Outgoing)
    ensures
        m.route@ == "user/run"@,
        m.event_id == event_id,
        m.op_id == op_id,
        m.body == Body::RunCode(RunCodePayload { func: call_func, output }),
        m.big_payload == Some(input),
{
    Outgoing {
        route: "user/run".to_owned(),
        event_id,
        op_id,
        body: Body::RunCode(RunCodePayload { func: call_func, output }),
        big_payload: Some(input),
    }
}

/// The end of a user: route `user/close` under its event id, empty text.
pub fn user_close(event_id: u64) -> (m: Outgoing)
    ensures
        m.route@ == "user/close"@,
        m.event_id == event_id,
        m.op_id == 0,
        m.body matches Body::Text(t) && t@ == Seq::<char>::empty(),
        m.big_payload is None,
{
    send_msg_to_verifier_by_event_id_op_id("user/close".to_owned(), event_id, 0, String::new())
}

} // verus!
