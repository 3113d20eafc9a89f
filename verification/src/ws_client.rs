//! The websocket client: its route table, the requests it writes, and the
//! decisions of its connection loop.
use vstd::prelude::*;
use crate::text::same_text;

verus! {

/// How long the connection loop waits before it connects again, in milliseconds.
pub const RECONNECT_DELAY_MS: u64 = 3000;

/// A request to the server: the user's id, the route and the payload.
pub struct WsRequest {
    pub t: String,
    pub r: String,
    pub p: String,
}

/// A message from the server: a code, a payload and the route it is for.
pub struct WsResponse {
    pub c: i16,
    pub p: String,
    pub r: String,
}

/// The handler registered last for `name` among `entries`, if any.
pub open spec fn find_route(entries: Seq<(String, u64)>, name: Seq<char>) -> Option<u64>
    decreases entries.len(),
{
    if entries.len() == 0 {
        None
    } else if entries.last().0@ == name {
        Some(entries.last().1)
    } else {
        find_route(entries.drop_last(), name)
    }
}

/// The route table that `entries` stands for: each name to its last handler.
pub open spec fn route_table(entries: Seq<(String, u64)>) -> Map<Seq<char>, u64> {
    Map::new(
        |name: Seq<char>| find_route(entries, name) is Some,
        |name: Seq<char>| find_route(entries, name)->Some_0,
    )
}

/// A websocket client for user `uid` at `url`, with handlers registered by
/// route name. Handlers are known by number; the caller keeps them.
pub struct WsClient {
    uid: String,
    url: String,
    routes: Vec<(String, u64)>,
}

/// Where the connection loop stands.
#[derive(Clone, Copy, Debug, PartialEq, Eq, Structural)]
pub enum LinkState {
    /// Not started.
    Idle,
    /// A connection attempt is under way.
    Connecting,
    /// Connected: frames come in and requests go out.
    Connected,
    /// Waiting before the next attempt.
    Backoff,
}

/// What happens to the connection loop.
pub enum LinkEvent {
    /// The loop starts.
    Start,
    /// The connection attempt succeeded.
    Opened,
    /// The connection attempt failed.
    OpenFailed,
    /// A frame came in: the server's message if it was text that reads as
    /// one, `None` otherwise.
    Frame(Option<WsResponse>),
    /// A request is waiting to go out.
    Outbound(String),
    /// Sending this request failed.
    SendFailed(String),
    /// Neither incoming frames nor outgoing requests can arrive any more.
    Closed,
    /// The wait before the next attempt is over.
    Woke,
}

/// What the connection loop does next.
pub enum LinkAction {
    /// Connect to this url.
    Connect(String),
    /// Wait this many milliseconds, then report `Woke`.
    Wait(u64),
    /// Run the handler with this number on the code and payload.
    Dispatch { handler: u64, code: i16, payload: String },
    /// Send this request.
    Transmit(String),
    /// Put this request back in the outgoing queue, then wait this many
    /// milliseconds and report `Woke`.
    RequeueAndWait(String, u64),
    /// Nothing.
    Nothing,
}

/// The decision of the connection loop of a client at `url` with route table
/// `routes`, in state `s` on event `e`: the next state and the action.
/// Connecting starts the loop and follows every wait; a failed attempt, a
/// failed send or a closed connection lead to a wait of three seconds, a
/// failed send putting its request back first; a server message for a
/// registered route runs that route's handler, others are dropped.
pub open spec fn link_step(routes: Map<Seq<char>, u64>, url: String, s: LinkState, e: LinkEvent) -> (
    LinkState,
    LinkAction,
) {
    match (s, e) {
        (LinkState::Idle, LinkEvent::Start) => (LinkState::Connecting, LinkAction::Connect(url)),
        (LinkState::Backoff, LinkEvent::Woke) => (LinkState::Connecting, LinkAction::Connect(url)),
        (LinkState::Connecting, LinkEvent::Opened) => (LinkState::Connected, LinkAction::Nothing),
        (LinkState::Connecting, LinkEvent::OpenFailed) => (
            LinkState::Backoff,
            LinkAction::Wait(RECONNECT_DELAY_MS),
        ),
        (LinkState::Connected, LinkEvent::Frame(Some(resp))) => if routes.contains_key(resp.r@) {
            (
                LinkState::Connected,
                LinkAction::Dispatch { handler: routes[resp.r@], code: resp.c, payload: resp.p },
            )
        } else {
            (LinkState::Connected, LinkAction::Nothing)
        },
        (LinkState::Connected, LinkEvent::Outbound(msg)) => (
            LinkState::Connected,
            LinkAction::Transmit(msg),
        ),
        (LinkState::Connected, LinkEvent::SendFailed(msg)) => (
            LinkState::Backoff,
            LinkAction::RequeueAndWait(msg, RECONNECT_DELAY_MS),
        ),
        (LinkState::Connected, LinkEvent::Closed) => (
            LinkState::Backoff,
            LinkAction::Wait(RECONNECT_DELAY_MS),
        ),
        (s, _) => (s, LinkAction::Nothing),
    }
}

impl WsClient {
    /// The user id.
    pub closed spec fn spec_uid(&self) -> String {
        self.uid
    }

    /// The server url.
    pub closed spec fn spec_url(&self) -> String {
        self.url
    }

    /// The registered handlers, by route name.
    pub closed spec fn routes(&self) -> Map<Seq<char>, u64> {
        route_table(self.routes@)
    }

    /// A client for user `uid` at `url` with no routes.
    pub fn new(uid: String, url: String) -> (c: WsClient)
        ensures
            c.spec_uid() == uid,
            c.spec_url() == url,
            c.routes() == Map::<Seq<char>, u64>::empty(),
    {
        let c = WsClient { uid, url, routes: Vec::new() };
        assert(c.routes() =~= Map::<Seq<char>, u64>::empty());
        c
    }

    /// The server url.
    pub fn url(&self) -> (u: &String)
        ensures
            *u == self.spec_url(),
    {
        &self.url
    }

    /// Registers handler number `handler` for route `api`, replacing any
    /// handler registered for it before.
    pub fn route_ws(&mut self, api: &str, handler: u64)
        ensures
            final(self).routes() == old(self).routes().insert(api@, handler),
            final(self).spec_uid() == old(self).spec_uid(),
            final(self).spec_url() == old(self).spec_url(),
    {
        let ghost before = self.routes@;
        self.routes.push((api.to_owned(), handler));
        proof {
            let after = self.routes@;
            assert(after.drop_last() =~= before);
            assert forall|name: Seq<char>| name != api@ implies find_route(after, name)
                == find_route(before, name) by {}
            assert(route_table(after) =~= route_table(before).insert(api@, handler));
        }
    }

    /// The handler registered for `route`, if any.
    pub fn lookup(&self, route: &str) -> (h: Option<u64>)
        ensures
            h == (if self.routes().contains_key(route@) {
                Some(self.routes()[route@])
            } else {
                None::<u64>
            }),
    {
        let mut i: usize = self.routes.len();
        assert(self.routes@.subrange(0, i as int) =~= self.routes@);
        while i > 0
            invariant
                i <= self.routes@.len(),
                find_route(self.routes@, route@) == find_route(
                    self.routes@.subrange(0, i as int),
                    route@,
                ),
            decreases i,
        {
            let ghost prefix = self.routes@.subrange(0, i as int);
            assert(prefix.drop_last() =~= self.routes@.subrange(0, i - 1));
            if same_text(self.routes[i - 1].0.as_str(), route) {
                return Some(self.routes[i - 1].1);
            }
            i = i - 1;
        }
        None
    }

    /// The request that sends `payload` on `route` for this client's user.
    pub fn send(&self, route: String, payload: String) -> (req: WsRequest)
        ensures
            req.t == self.spec_uid(),
            req.r == route,
            req.p == payload,
    {
        WsRequest { t: self.uid.clone(), r: route, p: payload }
    }

    /// The connection loop's decision in state `state` on event `event`.
    pub fn on_link_event(&self, state: LinkState, event: LinkEvent) -> (r: (LinkState, LinkAction))
        ensures
            r == link_step(self.routes(), self.spec_url(), state, event),
            state == LinkState::Connected && event is Outbound ==> r == (
                LinkState::Connected,
                LinkAction::Transmit(event->Outbound_0),
            ),
            state == LinkState::Connected && event is Closed ==> r == (
                LinkState::Backoff,
                LinkAction::Wait(RECONNECT_DELAY_MS),
            ),
            state == LinkState::Connecting && event is OpenFailed ==> r == (
                LinkState::Backoff,
                LinkAction::Wait(RECONNECT_DELAY_MS),
            ),
            state == LinkState::Connected && event is SendFailed ==> r == (
                LinkState::Backoff,
                LinkAction::RequeueAndWait(event->SendFailed_0, RECONNECT_DELAY_MS),
            ),
            (state == LinkState::Idle && event is Start) || (state == LinkState::Backoff
                && event is Woke) ==> r == (LinkState::Connecting, LinkAction::Connect(
                self.spec_url(),
            )),
            state == LinkState::Connecting && event is Opened ==> r == (
                LinkState::Connected,
                LinkAction::Nothing,
            ),
            state == LinkState::Connected && event is Frame ==> r.0 == LinkState::Connected,
    {
        proof {
            lemma_link_decisions(self.routes(), self.spec_url(), state, event);
        }
        match (state, event) {
            (LinkState::Idle, LinkEvent::Start) => (
                LinkState::Connecting,
                LinkAction::Connect(self.url.clone()),
            ),
            (LinkState::Backoff, LinkEvent::Woke) => (
                LinkState::Connecting,
                LinkAction::Connect(self.url.clone()),
            ),
            (LinkState::Connecting, LinkEvent::Opened) => (LinkState::Connected, LinkAction::Nothing),
            (LinkState::Connecting, LinkEvent::OpenFailed) => (
                LinkState::Backoff,
                LinkAction::Wait(RECONNECT_DELAY_MS),
            ),
            (LinkState::Connected, LinkEvent::Frame(Some(resp))) => {
                match self.lookup(resp.r.as_str()) {
                    Some(handler) => (
                        LinkState::Connected,
                        LinkAction::Dispatch { handler, code: resp.c, payload: resp.p },
                    ),
                    None => (LinkState::Connected, LinkAction::Nothing),
                }
            },
            (LinkState::Connected, LinkEvent::Outbound(msg)) => (
                LinkState::Connected,
                LinkAction::Transmit(msg),
            ),
            (LinkState::Connected, LinkEvent::SendFailed(msg)) => (
                LinkState::Backoff,
                LinkAction::RequeueAndWait(msg, RECONNECT_DELAY_MS),
            ),
            (LinkState::Connected, LinkEvent::Closed) => (
                LinkState::Backoff,
                LinkAction::Wait(RECONNECT_DELAY_MS),
            ),
            (s, _) => (s, LinkAction::Nothing),
        }
    }
}

/// A registered route is served: while connected, a server message for a
/// route goes to the handler registered last for that route, with its code
/// and payload.
pub proof fn lemma_registered_route_dispatched(
    routes: Map<Seq<char>, u64>,
    url: String,
    api: Seq<char>,
    handler: u64,
    resp: WsResponse,
)
    requires
        resp.r@ == api,
    ensures
        link_step(routes.insert(api, handler), url, LinkState::Connected, LinkEvent::Frame(Some(resp)))
            == (LinkState::Connected, LinkAction::Dispatch { handler, code: resp.c, payload: resp.p }),
{
}

/// No request is lost: a request whose send fails is put back to be sent
/// again, and the loop connects anew after the wait.
pub proof fn lemma_failed_send_requeued(routes: Map<Seq<char>, u64>, url: String, msg: String)
    ensures
        link_step(routes, url, LinkState::Connected, LinkEvent::SendFailed(msg)) == (
            LinkState::Backoff,
            LinkAction::RequeueAndWait(msg, RECONNECT_DELAY_MS),
        ),
        link_step(routes, url, LinkState::Backoff, LinkEvent::Woke) == (
            LinkState::Connecting,
            LinkAction::Connect(url),
        ),
{
}

/// The loop never gives up: every way of losing the connection, or of failing
/// to get one, leads to a wait and then to a new attempt at the same url.
pub proof fn lemma_always_reconnects(routes: Map<Seq<char>, u64>, url: String, s: LinkState, e: LinkEvent)
    requires
        (s == LinkState::Connecting && e is OpenFailed) || (s == LinkState::Connected && (e is Closed
            || e is SendFailed)),
    ensures
        link_step(routes, url, s, e).0 == LinkState::Backoff,
        link_step(routes, url, LinkState::Backoff, LinkEvent::Woke).1 == LinkAction::Connect(url),
{
}

/// What the connection loop does, event by event. Starting, and the end of
/// every wait, connect to the client's url. An open connection is kept: it
/// stays open when a request goes out (which is transmitted as it is) and when
/// a frame comes in. Losing the connection, or failing to get one, always
/// schedules the three-second wait that precedes the next attempt; a request
/// whose send failed is put back first. A frame for a route without a handler
/// is dropped; an unreadable frame is dropped.
pub proof fn lemma_link_decisions(routes: Map<Seq<char>, u64>, url: String, s: LinkState, e: LinkEvent)
    ensures
        s == LinkState::Connected && e is Outbound ==> link_step(routes, url, s, e) == (
            LinkState::Connected,
            LinkAction::Transmit(e->Outbound_0),
        ),
        s == LinkState::Connected && e is Closed ==> link_step(routes, url, s, e) == (
            LinkState::Backoff,
            LinkAction::Wait(RECONNECT_DELAY_MS),
        ),
        s == LinkState::Connecting && e is OpenFailed ==> link_step(routes, url, s, e) == (
            LinkState::Backoff,
            LinkAction::Wait(RECONNECT_DELAY_MS),
        ),
        s == LinkState::Connected && e is SendFailed ==> link_step(routes, url, s, e) == (
            LinkState::Backoff,
            LinkAction::RequeueAndWait(e->SendFailed_0, RECONNECT_DELAY_MS),
        ),
        (s == LinkState::Idle && e is Start) || (s == LinkState::Backoff && e is Woke)
            ==> link_step(routes, url, s, e) == (LinkState::Connecting, LinkAction::Connect(url)),
        s == LinkState::Connecting && e is Opened ==> link_step(routes, url, s, e) == (
            LinkState::Connected,
            LinkAction::Nothing,
        ),
        s == LinkState::Connected && e is Frame ==> link_step(routes, url, s, e).0
            == LinkState::Connected,
        s == LinkState::Connected && e == LinkEvent::Frame(None) ==> link_step(routes, url, s, e)
            == (LinkState::Connected, LinkAction::Nothing),
        s == LinkState::Connected && e is Frame && e->Frame_0 is Some && !routes.contains_key(
            e->Frame_0->Some_0.r@,
        ) ==> link_step(routes, url, s, e) == (LinkState::Connected, LinkAction::Nothing),
        link_step(routes, url, s, e).1 is Wait ==> link_step(routes, url, s, e).0
            == LinkState::Backoff && link_step(routes, url, s, e).1->Wait_0 == RECONNECT_DELAY_MS,
        link_step(routes, url, s, e).0 == LinkState::Backoff && s != LinkState::Backoff
            ==> link_step(routes, url, s, e).1 is Wait || link_step(routes, url, s, e).1 is RequeueAndWait,
{
}

} // verus!
