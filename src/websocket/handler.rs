use vstd::prelude::*;
use vstd::slice::slice_to_vec;
use vstd::string::*;
use vstd::utf8::encode_utf8;

use crate::asgispec::{headers_view, ASGIReceiveEvent, ASGISendEvent};
use crate::error::{is_unexpected_message, Error};
use crate::http::ResponseData;
use crate::websocket::NO_STATUS_RECEIVED;

verus! {

/// What the server answers to the application's handshake decision.
#[derive(Debug)]
pub enum Handshake {
    /// Upgrade the connection: `101 Switching Protocols` with these headers.
    Accept(ResponseData),
    /// Refuse the upgrade: `403 Forbidden` with the application's reason as body.
    Deny(ResponseData),
}

/// The name of the header that carries the chosen subprotocol.
pub open spec fn subprotocol_header() -> Seq<u8> {
    "sec-websocket-protocol".spec_bytes()
}

/// The headers of the `101` answer: the chosen subprotocol, if any, then the application's.
pub open spec fn accept_headers(subprotocol: Option<String>, headers: Seq<(Seq<u8>, Seq<u8>)>) -> Seq<
    (Seq<u8>, Seq<u8>),
> {
    match subprotocol {
        Some(p) => seq![(subprotocol_header(), encode_utf8(p@))] + headers,
        None => headers,
    }
}

/// The reason given when the application's task ends during the handshake.
pub open spec fn stopped_during_handshake() -> Seq<char> {
    "stopped during websocket handshake"@
}

/// Turns the application's answer to `websocket.connect` into the HTTP answer to the
/// client. The subprotocol the application chose is passed on as it is, whether or not the
/// client offered it. Any event but `websocket.accept` and `websocket.close` is refused.
pub fn handshake_response(event: Option<ASGISendEvent>) -> (r: Result<Handshake, Error>)
    ensures
        match event {
            Some(ASGISendEvent::WebsocketAccept(a)) => r is Ok && r->Ok_0 is Accept && {
                let resp = r->Ok_0->Accept_0;
                &&& resp.status == 101
                &&& headers_view(resp.headers@) == accept_headers(a.subprotocol, headers_view(a.headers@))
                &&& resp.body@.len() == 0
            },
            Some(ASGISendEvent::WebsocketClose(c)) => r is Ok && r->Ok_0 is Deny && {
                let resp = r->Ok_0->Deny_0;
                &&& resp.status == 403
                &&& resp.headers@.len() == 0
                &&& resp.body@ == encode_utf8(c.reason@)
            },
            _ => r is Err && is_unexpected_message(r->Err_0, event),
        },
{
    match event {
        Some(ASGISendEvent::WebsocketAccept(a)) => {
            let mut headers: Vec<(Vec<u8>, Vec<u8>)> = Vec::new();
            match a.subprotocol {
                Some(p) => {
                    headers.push(
                        (
                            slice_to_vec("sec-websocket-protocol".as_bytes()),
                            slice_to_vec(p.as_str().as_bytes()),
                        ),
                    );
                },
                None => {},
            }
            let ghost first = headers@;
            let mut rest = a.headers;
            let ghost rest0 = rest@;
            headers.append(&mut rest);
            proof {
                assert(headers@ == first + rest0);
                assert(headers_view(headers@) =~= headers_view(first) + headers_view(rest0));
                assert(headers_view(headers@) =~= accept_headers(a.subprotocol, headers_view(a.headers@)));
            }
            Ok(Handshake::Accept(ResponseData::new(101, headers, Vec::new())))
        },
        Some(ASGISendEvent::WebsocketClose(c)) => {
            let body = slice_to_vec(c.reason.as_str().as_bytes());
            Ok(Handshake::Deny(ResponseData::new(403, Vec::new(), body)))
        },
        other => Err(Error::unexpected_asgi_message(other)),
    }
}

/// The answer to the client once the framing layer proposed its own upgrade response:
/// its status, its headers then the application's, and the application's body.
pub fn merge_responses(app_response: ResponseData, upgrade_status: u16, upgrade_headers: Vec<(Vec<u8>, Vec<u8>)>) -> (r:
    ResponseData)
    ensures
        r.status == upgrade_status,
        r.headers@ == upgrade_headers@ + app_response.headers@,
        r.body == app_response.body,
{
    let mut headers = upgrade_headers;
    let mut app_headers = app_response.headers;
    headers.append(&mut app_headers);
    ResponseData::new(upgrade_status, headers, app_response.body)
}

/// A frame from the client, as the framing layer decoded it. Text is valid UTF-8.
#[derive(Debug)]
pub enum ClientFrame {
    Text(String),
    Binary(Vec<u8>),
    Close,
    Ping,
    Pong,
}

/// A frame for the client.
#[derive(Debug)]
pub enum ServerFrame {
    Text(String),
    Binary(Vec<u8>),
    /// A close frame with this payload.
    Close(Vec<u8>),
}

/// What to do with a frame from the client.
#[derive(Debug)]
pub enum Inbound {
    /// Hand this event to the application.
    Deliver(ASGIReceiveEvent),
    /// Nothing for the application (the framing layer answers pings).
    Ignore,
    /// The client closed the connection.
    Stop,
}

/// What to do with an event from the application while connected.
#[derive(Debug)]
pub struct Outbound {
    /// Frames to write, in order.
    pub frames: Vec<ServerFrame>,
    /// Whether the connection stays open after them.
    pub keep_open: bool,
    /// The error that ends the connection, if the event did not belong there.
    pub error: Option<Error>,
}

/// The payload of the close frame sent when the application misbehaves.
pub open spec fn internal_error_payload() -> Seq<u8> {
    "Internal server error".spec_bytes()
}

/// Where a WebSocket session stands.
#[derive(Debug, Clone, Copy, PartialEq, Eq, Structural)]
pub enum WsPhase {
    /// `websocket.connect` not sent yet.
    New,
    /// `websocket.connect` sent; waiting for accept or close.
    Connecting,
    /// Upgraded: frames and events are pumped both ways.
    Connected,
    /// The application refused the upgrade, or the handshake failed.
    Refused,
    /// The connection ended and the application was told so.
    Closed,
}

/// Whether `log` is what a session hands its application: `websocket.connect` first, then
/// `websocket.receive` events, then, once `disconnected`, one `websocket.disconnect`.
pub open spec fn session_log_well_formed(log: Seq<ASGIReceiveEvent>, disconnected: bool) -> bool {
    &&& log.len() >= 1
    &&& log[0] is WebsocketConnect
    &&& disconnected ==> log.len() >= 2
    &&& forall|i: int|
        1 <= i < log.len() ==> if disconnected && i == log.len() - 1 {
            (#[trigger] log[i]) is WebsocketDisconnect
        } else {
            log[i] is WebsocketReceive
        }
}

/// The WebSocket coordinator of one connection: the handshake, then both pumps, then the
/// disconnect that tells the application the connection is over.
pub struct WebsocketSession {
    phase: WsPhase,
    delivered: Ghost<Seq<ASGIReceiveEvent>>,
}

impl WebsocketSession {
    pub fn new() -> (r: Self)
        ensures
            r.wf(),
            r.phase() == WsPhase::New,
            r.delivered().len() == 0,
    {
        WebsocketSession { phase: WsPhase::New, delivered: Ghost(Seq::empty()) }
    }

    pub closed spec fn phase(&self) -> WsPhase {
        self.phase
    }

    /// Every event the session handed the application, oldest first.
    pub closed spec fn delivered(&self) -> Seq<ASGIReceiveEvent> {
        self.delivered@
    }

    pub open spec fn wf(&self) -> bool {
        &&& self.phase() == WsPhase::New <==> self.delivered().len() == 0
        &&& self.phase() == WsPhase::Connecting || self.phase() == WsPhase::Refused ==> self.delivered().len() == 1
        &&& self.phase() != WsPhase::New ==> session_log_well_formed(
            self.delivered(),
            self.phase() == WsPhase::Closed,
        )
    }

    #[verifier::when_used_as_spec(phase)]
    pub fn current_phase(&self) -> (r: WsPhase)
        ensures
            r == self.phase(),
    {
        self.phase
    }

    /// Opens the handshake: the `websocket.connect` event, handed out once.
    pub fn connect(&mut self) -> (r: Option<ASGIReceiveEvent>)
        requires
            old(self).wf(),
        ensures
            final(self).wf(),
            old(self).phase() == WsPhase::New ==> {
                &&& final(self).phase() == WsPhase::Connecting
                &&& r is Some
                &&& r->Some_0 is WebsocketConnect
                &&& final(self).delivered() == seq![r->Some_0]
            },
            old(self).phase() != WsPhase::New ==> r is None && final(self).phase() == old(self).phase()
                && final(self).delivered() == old(self).delivered(),
    {
        if self.phase != WsPhase::New {
            return None;
        }
        let e = ASGIReceiveEvent::new_websocket_connect();
        let ghost g = e;
        self.delivered = Ghost(Seq::empty().push(g));
        self.phase = WsPhase::Connecting;
        Some(e)
    }

    /// Takes the application's answer to `websocket.connect`.
    pub fn on_handshake_event(&mut self, event: Option<ASGISendEvent>) -> (r: Result<Handshake, Error>)
        requires
            old(self).wf(),
            old(self).phase() == WsPhase::Connecting,
        ensures
            final(self).wf(),
            final(self).delivered() == old(self).delivered(),
            final(self).phase() == (if event matches Some(ASGISendEvent::WebsocketAccept(_)) {
                WsPhase::Connected
            } else {
                WsPhase::Refused
            }),
            match event {
                Some(ASGISendEvent::WebsocketAccept(a)) => r is Ok && r->Ok_0 is Accept && {
                    let resp = r->Ok_0->Accept_0;
                    &&& resp.status == 101
                    &&& headers_view(resp.headers@) == accept_headers(
                        a.subprotocol,
                        headers_view(a.headers@),
                    )
                    &&& resp.body@.len() == 0
                },
                Some(ASGISendEvent::WebsocketClose(c)) => r is Ok && r->Ok_0 is Deny && {
                    let resp = r->Ok_0->Deny_0;
                    &&& resp.status == 403
                    &&& resp.headers@.len() == 0
                    &&& resp.body@ == encode_utf8(c.reason@)
                },
                _ => r is Err && is_unexpected_message(r->Err_0, event),
            },
    {
        let accepted = match &event {
            Some(ASGISendEvent::WebsocketAccept(_)) => true,
            _ => false,
        };
        self.phase = if accepted {
            WsPhase::Connected
        } else {
            WsPhase::Refused
        };
        handshake_response(event)
    }

    /// The application's task ended during the handshake: the error that ends it.
    pub fn on_exit_during_handshake(&mut self) -> (r: Error)
        requires
            old(self).wf(),
            old(self).phase() == WsPhase::Connecting,
        ensures
            final(self).wf(),
            final(self).phase() == WsPhase::Refused,
            final(self).delivered() == old(self).delivered(),
            r is UnexpectedShutdown,
            r->src@ == "application"@,
            r->reason@ == stopped_during_handshake(),
    {
        self.phase = WsPhase::Refused;
        Error::unexpected_shutdown("application", "stopped during websocket handshake".to_owned())
    }

    /// Takes a frame from the client while connected.
    pub fn on_client_frame(&mut self, frame: ClientFrame) -> (r: Inbound)
        requires
            old(self).wf(),
            old(self).phase() == WsPhase::Connected,
        ensures
            final(self).wf(),
            final(self).phase() == WsPhase::Connected,
            match frame {
                ClientFrame::Text(t) => r is Deliver && r->Deliver_0 is WebsocketReceive
                    && r->Deliver_0->WebsocketReceive_0.text == Some(t)
                    && r->Deliver_0->WebsocketReceive_0.bytes is None,
                ClientFrame::Binary(b) => r is Deliver && r->Deliver_0 is WebsocketReceive
                    && r->Deliver_0->WebsocketReceive_0.bytes == Some(b)
                    && r->Deliver_0->WebsocketReceive_0.text is None,
                ClientFrame::Close => r is Stop,
                _ => r is Ignore,
            },
            r is Deliver ==> final(self).delivered() == old(self).delivered().push(r->Deliver_0),
            !(r is Deliver) ==> final(self).delivered() == old(self).delivered(),
    {
        match frame {
            ClientFrame::Text(t) => {
                let e = ASGIReceiveEvent::new_websocket_receive(None, Some(t));
                let ghost g = e;
                self.delivered = Ghost(self.delivered@.push(g));
                Inbound::Deliver(e)
            },
            ClientFrame::Binary(b) => {
                let e = ASGIReceiveEvent::new_websocket_receive(Some(b), None);
                let ghost g = e;
                self.delivered = Ghost(self.delivered@.push(g));
                Inbound::Deliver(e)
            },
            ClientFrame::Close => Inbound::Stop,
            _ => Inbound::Ignore,
        }
    }

    /// Takes an event from the application while connected (`None` when its events
    /// ended). A send gives a text frame, a binary frame, or both; a close gives a close
    /// frame with the reason and ends the connection; anything else gives a close frame
    /// with "Internal server error" and ends the connection with an error.
    pub fn on_app_event(&mut self, event: Option<ASGISendEvent>) -> (r: Outbound)
        requires
            old(self).wf(),
            old(self).phase() == WsPhase::Connected,
        ensures
            final(self).wf(),
            final(self).phase() == WsPhase::Connected,
            final(self).delivered() == old(self).delivered(),
            match event {
                Some(ASGISendEvent::WebsocketSend(s)) => {
                    &&& r.keep_open
                    &&& r.error is None
                    &&& r.frames@ == send_frames(s.text, s.bytes)
                },
                Some(ASGISendEvent::WebsocketClose(c)) => {
                    &&& !r.keep_open
                    &&& r.error is None
                    &&& r.frames@.len() == 1
                    &&& r.frames@[0] is Close
                    &&& r.frames@[0]->Close_0@ == encode_utf8(c.reason@)
                },
                _ => {
                    &&& !r.keep_open
                    &&& r.error is Some
                    &&& is_unexpected_message(r.error->Some_0, event)
                    &&& r.frames@.len() == 1
                    &&& r.frames@[0] is Close
                    &&& r.frames@[0]->Close_0@ == internal_error_payload()
                },
            },
    {
        match event {
            Some(ASGISendEvent::WebsocketSend(s)) => {
                let mut frames: Vec<ServerFrame> = Vec::new();
                match s.text {
                    Some(t) => frames.push(ServerFrame::Text(t)),
                    None => {},
                }
                match s.bytes {
                    Some(b) => frames.push(ServerFrame::Binary(b)),
                    None => {},
                }
                proof {
                    assert(frames@ =~= send_frames(s.text, s.bytes));
                }
                Outbound { frames, keep_open: true, error: None }
            },
            Some(ASGISendEvent::WebsocketClose(c)) => {
                let mut frames: Vec<ServerFrame> = Vec::new();
                frames.push(ServerFrame::Close(slice_to_vec(c.reason.as_str().as_bytes())));
                Outbound { frames, keep_open: false, error: None }
            },
            other => {
                let mut frames: Vec<ServerFrame> = Vec::new();
                frames.push(ServerFrame::Close(slice_to_vec("Internal server error".as_bytes())));
                Outbound { frames, keep_open: false, error: Some(Error::unexpected_asgi_message(other)) }
            },
        }
    }

    /// Ends a connected session: the `websocket.disconnect` event to hand the application,
    /// with the code that says the peer gave none. Handed out once.
    pub fn finish(&mut self) -> (r: Option<ASGIReceiveEvent>)
        requires
            old(self).wf(),
        ensures
            final(self).wf(),
            old(self).phase() == WsPhase::Connected ==> {
                &&& final(self).phase() == WsPhase::Closed
                &&& r is Some
                &&& r->Some_0 is WebsocketDisconnect
                &&& r->Some_0->WebsocketDisconnect_0.code == NO_STATUS_RECEIVED
                &&& final(self).delivered() == old(self).delivered().push(r->Some_0)
            },
            old(self).phase() != WsPhase::Connected ==> r is None && final(self).phase() == old(
                self,
            ).phase() && final(self).delivered() == old(self).delivered(),
    {
        if self.phase != WsPhase::Connected {
            return None;
        }
        let e = ASGIReceiveEvent::new_websocket_disconnect(NO_STATUS_RECEIVED);
        let ghost g = e;
        self.delivered = Ghost(self.delivered@.push(g));
        self.phase = WsPhase::Closed;
        Some(e)
    }
}

/// The frames for a `websocket.send`: text first, then binary, each when present.
pub open spec fn send_frames(text: Option<String>, bytes: Option<Vec<u8>>) -> Seq<ServerFrame> {
    let t: Seq<ServerFrame> = match text {
        Some(t) => seq![ServerFrame::Text(t)],
        None => Seq::empty(),
    };
    let b: Seq<ServerFrame> = match bytes {
        Some(b) => seq![ServerFrame::Binary(b)],
        None => Seq::empty(),
    };
    t + b
}

/// In what a session hands its application, `websocket.connect` comes exactly once, and
/// first: before every `websocket.receive` and `websocket.disconnect`.
pub proof fn lemma_connect_once_first(log: Seq<ASGIReceiveEvent>, disconnected: bool)
    requires
        session_log_well_formed(log, disconnected),
    ensures
        forall|i: int| 0 <= i < log.len() ==> ((#[trigger] log[i]) is WebsocketConnect <==> i == 0),
{
    assert forall|i: int| 0 <= i < log.len() implies ((#[trigger] log[i]) is WebsocketConnect <==> i
        == 0) by {
        if i > 0 {
            if disconnected && i == log.len() - 1 {
                assert(log[i] is WebsocketDisconnect);
            } else {
                assert(log[i] is WebsocketReceive);
            }
        }
    }
}

/// Once a connected session is over, its application was handed exactly one
/// `websocket.disconnect`, after every `websocket.receive`.
pub proof fn lemma_disconnect_once_last(log: Seq<ASGIReceiveEvent>)
    requires
        session_log_well_formed(log, true),
    ensures
        forall|i: int| 0 <= i < log.len() ==> ((#[trigger] log[i]) is WebsocketDisconnect <==> i
            == log.len() - 1),
        forall|i: int| 0 <= i < log.len() && (#[trigger] log[i]) is WebsocketReceive ==> i < log.len() - 1,
{
    assert forall|i: int| 0 <= i < log.len() implies ((#[trigger] log[i]) is WebsocketDisconnect <==> i
        == log.len() - 1) by {
        if 1 <= i < log.len() - 1 {
            assert(log[i] is WebsocketReceive);
        }
    }
}

} // verus!
