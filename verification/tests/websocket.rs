use oc_user::ws_client::{LinkAction, LinkEvent, LinkState, WsClient, WsResponse, RECONNECT_DELAY_MS};

fn resp(route: &str, code: i16, payload: &str) -> LinkEvent {
    LinkEvent::Frame(Some(WsResponse { c: code, p: payload.to_string(), r: route.to_string() }))
}

#[test]
fn routes_register_and_replace() {
    let mut ws = WsClient::new("uid".to_string(), "ws://host".to_string());
    assert_eq!(ws.lookup("user/run"), None);
    ws.route_ws("user/run", 1);
    ws.route_ws("user/hello", 2);
    assert_eq!(ws.lookup("user/run"), Some(1));
    assert_eq!(ws.lookup("user/hello"), Some(2));
    ws.route_ws("user/run", 5);
    assert_eq!(ws.lookup("user/run"), Some(5));
    assert_eq!(ws.lookup("user/hello"), Some(2));
    assert_eq!(ws.lookup("user/close"), None);
}

#[test]
fn send_builds_request() {
    let ws = WsClient::new("token".to_string(), "ws://h".to_string());
    let r = ws.send("user/run".to_string(), "{}".to_string());
    assert_eq!((r.t.as_str(), r.r.as_str(), r.p.as_str()), ("token", "user/run", "{}"));
    assert_eq!(ws.url(), "ws://h");
}

#[test]
fn link_connects_and_dispatches() {
    let mut ws = WsClient::new("u".to_string(), "ws://h".to_string());
    ws.route_ws("user/init", 3);
    let (s, a) = ws.on_link_event(LinkState::Idle, LinkEvent::Start);
    assert_eq!(s, LinkState::Connecting);
    assert!(matches!(a, LinkAction::Connect(ref u) if u == "ws://h"));
    let (s, a) = ws.on_link_event(s, LinkEvent::Opened);
    assert_eq!(s, LinkState::Connected);
    assert!(matches!(a, LinkAction::Nothing));
    let (s, a) = ws.on_link_event(s, resp("user/init", 4, "p"));
    assert_eq!(s, LinkState::Connected);
    assert!(matches!(a, LinkAction::Dispatch { handler: 3, code: 4, ref payload } if payload == "p"));
    let (_, a) = ws.on_link_event(s, resp("other", 4, "p"));
    assert!(matches!(a, LinkAction::Nothing));
    let (_, a) = ws.on_link_event(s, LinkEvent::Frame(None));
    assert!(matches!(a, LinkAction::Nothing));
    let (_, a) = ws.on_link_event(s, LinkEvent::Outbound("m".to_string()));
    assert!(matches!(a, LinkAction::Transmit(ref m) if m == "m"));
}

#[test]
fn link_backs_off_and_reconnects() {
    let ws = WsClient::new("u".to_string(), "ws://h".to_string());
    let (s, a) = ws.on_link_event(LinkState::Connecting, LinkEvent::OpenFailed);
    assert_eq!(s, LinkState::Backoff);
    assert!(matches!(a, LinkAction::Wait(3000)));
    let (s, a) = ws.on_link_event(s, LinkEvent::Woke);
    assert_eq!(s, LinkState::Connecting);
    assert!(matches!(a, LinkAction::Connect(_)));
    let (s, a) = ws.on_link_event(LinkState::Connected, LinkEvent::SendFailed("m".to_string()));
    assert_eq!(s, LinkState::Backoff);
    assert!(matches!(a, LinkAction::RequeueAndWait(ref m, d) if m == "m" && d == RECONNECT_DELAY_MS));
    let (s, _) = ws.on_link_event(LinkState::Connected, LinkEvent::Closed);
    assert_eq!(s, LinkState::Backoff);
    let (s, a) = ws.on_link_event(LinkState::Idle, LinkEvent::Woke);
    assert_eq!(s, LinkState::Idle);
    assert!(matches!(a, LinkAction::Nothing));
}
