use vstd::prelude::*;

use crate::http::{HTTPDisconnectEvent, HTTPRequestEvent, HTTPResonseBodyEvent, HTTPResponseStartEvent, HTTPScope};
use crate::lifespan::{
    LifespanScope, LifespanShutdown, LifespanShutdownComplete, LifespanShutdownFailed, LifespanStartup,
    LifespanStartupComplete, LifespanStartupFailed,
};
use crate::websocket::{
    WebsocketAcceptEvent, WebsocketCloseEvent, WebsocketConnectEvent, WebsocketDisconnectEvent, WebsocketReceiveEvent,
    WebsocketScope, WebsocketSendEvent,
};

verus! {

/// The version of the application protocol this server speaks.
pub const ASGI_VERSION: &'static str = "3.0";

/// The revision of the protocol's specification this server follows.
pub const ASGI_SPEC_VERSION: &'static str = "2.4";

/// A list of headers as pairs of byte strings, in order.
pub open spec fn headers_view(h: Seq<(Vec<u8>, Vec<u8>)>) -> Seq<(Seq<u8>, Seq<u8>)> {
    h.map_values(|p: (Vec<u8>, Vec<u8>)| (p.0@, p.1@))
}

/// The process-wide state handed by reference to every scope.
pub trait State: Clone + Send + Sync + std::fmt::Debug {}

/// The protocol metadata carried by every scope.
#[derive(Debug, Clone)]
pub struct ASGIScope {
    pub version: String,
    pub spec_version: String,
}

impl ASGIScope {
    pub open spec fn is_current(&self) -> bool {
        &&& self.version@ == ASGI_VERSION@
        &&& self.spec_version@ == ASGI_SPEC_VERSION@
    }

    pub fn new() -> (r: Self)
        ensures
            r.is_current(),
    {
        ASGIScope { version: ASGI_VERSION.to_owned(), spec_version: ASGI_SPEC_VERSION.to_owned() }
    }
}

/// The record describing the protocol phase that the application is invoked for.
#[derive(Debug, Clone)]
pub enum Scope<S: State> {
    HTTP(HTTPScope<S>),
    Lifespan(LifespanScope<S>),
    Websocket(WebsocketScope<S>),
}

/// What the application hands to the server through `send`.
///
/// `Error` and `AppReturned` are never emitted by the application itself: they are put on
/// the bus when the application's task ends, so that a server waiting on it wakes up.
#[derive(Debug)]
pub enum ASGISendEvent {
    StartupComplete(LifespanStartupComplete),
    StartupFailed(LifespanStartupFailed),
    ShutdownComplete(LifespanShutdownComplete),
    ShutdownFailed(LifespanShutdownFailed),
    HTTPResponseStart(HTTPResponseStartEvent),
    HTTPResponseBody(HTTPResonseBodyEvent),
    WebsocketAccept(WebsocketAcceptEvent),
    WebsocketClose(WebsocketCloseEvent),
    WebsocketSend(WebsocketSendEvent),
    Error(String),
    AppReturned,
}

/// What the server hands to the application through `receive`.
#[derive(Debug)]
pub enum ASGIReceiveEvent {
    Startup(LifespanStartup),
    Shutdown(LifespanShutdown),
    HTTPRequest(HTTPRequestEvent),
    HTTPDisconnect(HTTPDisconnectEvent),
    WebsocketConnect(WebsocketConnectEvent),
    WebsocketDisconnect(WebsocketDisconnectEvent),
    WebsocketReceive(WebsocketReceiveEvent),
}

/// The variant of an `ASGISendEvent`, without its payload.
#[derive(Debug, Clone, Copy, PartialEq, Eq, Structural)]
pub enum SendEventKind {
    StartupComplete,
    StartupFailed,
    ShutdownComplete,
    ShutdownFailed,
    HTTPResponseStart,
    HTTPResponseBody,
    WebsocketAccept,
    WebsocketClose,
    WebsocketSend,
    Error,
    AppReturned,
}

impl SendEventKind {
    /// The name of the event's variant in `ASGISendEvent`.
    pub open spec fn spec_variant(self) -> Seq<char> {
        match self {
            SendEventKind::StartupComplete => "StartupComplete"@,
            SendEventKind::StartupFailed => "StartupFailed"@,
            SendEventKind::ShutdownComplete => "ShutdownComplete"@,
            SendEventKind::ShutdownFailed => "ShutdownFailed"@,
            SendEventKind::HTTPResponseStart => "HTTPResponseStart"@,
            SendEventKind::HTTPResponseBody => "HTTPResponseBody"@,
            SendEventKind::WebsocketAccept => "WebsocketAccept"@,
            SendEventKind::WebsocketClose => "WebsocketClose"@,
            SendEventKind::WebsocketSend => "WebsocketSend"@,
            SendEventKind::Error => "Error"@,
            SendEventKind::AppReturned => "AppReturned"@,
        }
    }

    pub fn variant(self) -> (r: &'static str)
        ensures
            r@ == self.spec_variant(),
    {
        match self {
            SendEventKind::StartupComplete => "StartupComplete",
            SendEventKind::StartupFailed => "StartupFailed",
            SendEventKind::ShutdownComplete => "ShutdownComplete",
            SendEventKind::ShutdownFailed => "ShutdownFailed",
            SendEventKind::HTTPResponseStart => "HTTPResponseStart",
            SendEventKind::HTTPResponseBody => "HTTPResponseBody",
            SendEventKind::WebsocketAccept => "WebsocketAccept",
            SendEventKind::WebsocketClose => "WebsocketClose",
            SendEventKind::WebsocketSend => "WebsocketSend",
            SendEventKind::Error => "Error",
            SendEventKind::AppReturned => "AppReturned",
        }
    }

    /// The event's name on the protocol.
    pub open spec fn spec_name(self) -> Seq<char> {
        match self {
            SendEventKind::StartupComplete => "lifespan.startup.complete"@,
            SendEventKind::StartupFailed => "lifespan.startup.failed"@,
            SendEventKind::ShutdownComplete => "lifespan.shutdown.complete"@,
            SendEventKind::ShutdownFailed => "lifespan.shutdown.failed"@,
            SendEventKind::HTTPResponseStart => "http.response.start"@,
            SendEventKind::HTTPResponseBody => "http.response.body"@,
            SendEventKind::WebsocketAccept => "websocket.accept"@,
            SendEventKind::WebsocketClose => "websocket.close"@,
            SendEventKind::WebsocketSend => "websocket.send"@,
            SendEventKind::Error => "error"@,
            SendEventKind::AppReturned => "app.returned"@,
        }
    }

    pub fn name(self) -> (r: &'static str)
        ensures
            r@ == self.spec_name(),
    {
        match self {
            SendEventKind::StartupComplete => "lifespan.startup.complete",
            SendEventKind::StartupFailed => "lifespan.startup.failed",
            SendEventKind::ShutdownComplete => "lifespan.shutdown.complete",
            SendEventKind::ShutdownFailed => "lifespan.shutdown.failed",
            SendEventKind::HTTPResponseStart => "http.response.start",
            SendEventKind::HTTPResponseBody => "http.response.body",
            SendEventKind::WebsocketAccept => "websocket.accept",
            SendEventKind::WebsocketClose => "websocket.close",
            SendEventKind::WebsocketSend => "websocket.send",
            SendEventKind::Error => "error",
            SendEventKind::AppReturned => "app.returned",
        }
    }
}

/// The kind of an optional event.
pub open spec fn kind_of(event: Option<ASGISendEvent>) -> Option<SendEventKind> {
    match event {
        Some(e) => Some(e.spec_kind()),
        None => None,
    }
}

/// How an optional event reads in an error message: in full, as its debug form, for the
/// events that carry nothing but their type; by its variant alone for the others.
pub open spec fn event_rendering(event: Option<ASGISendEvent>) -> Seq<char> {
    match event {
        None => "None"@,
        Some(ASGISendEvent::StartupComplete(s)) => "Some(StartupComplete(LifespanStartupComplete { type_: \""@
            + s.type_@ + "\" }))"@,
        Some(ASGISendEvent::ShutdownComplete(s)) => "Some(ShutdownComplete(LifespanShutdownComplete { type_: \""@
            + s.type_@ + "\" }))"@,
        Some(ASGISendEvent::AppReturned) => "Some(AppReturned)"@,
        Some(e) => "Some("@ + e.spec_kind().spec_variant() + "(..))"@,
    }
}

/// Renders an optional event for an error message.
pub fn render_event(event: &Option<ASGISendEvent>) -> (r: String)
    ensures
        r@ == event_rendering(*event),
{
    match event {
        None => "None".to_owned(),
        Some(ASGISendEvent::StartupComplete(s)) => {
            let mut out = "Some(StartupComplete(LifespanStartupComplete { type_: \"".to_owned();
            out.append(s.type_.as_str());
            out.append("\" }))");
            out
        },
        Some(ASGISendEvent::ShutdownComplete(s)) => {
            let mut out = "Some(ShutdownComplete(LifespanShutdownComplete { type_: \"".to_owned();
            out.append(s.type_.as_str());
            out.append("\" }))");
            out
        },
        Some(ASGISendEvent::AppReturned) => "Some(AppReturned)".to_owned(),
        Some(e) => {
            let mut out = "Some(".to_owned();
            out.append(e.kind().variant());
            out.append("(..))");
            out
        },
    }
}

impl ASGISendEvent {
    pub open spec fn spec_kind(&self) -> SendEventKind {
        match self {
            ASGISendEvent::StartupComplete(_) => SendEventKind::StartupComplete,
            ASGISendEvent::StartupFailed(_) => SendEventKind::StartupFailed,
            ASGISendEvent::ShutdownComplete(_) => SendEventKind::ShutdownComplete,
            ASGISendEvent::ShutdownFailed(_) => SendEventKind::ShutdownFailed,
            ASGISendEvent::HTTPResponseStart(_) => SendEventKind::HTTPResponseStart,
            ASGISendEvent::HTTPResponseBody(_) => SendEventKind::HTTPResponseBody,
            ASGISendEvent::WebsocketAccept(_) => SendEventKind::WebsocketAccept,
            ASGISendEvent::WebsocketClose(_) => SendEventKind::WebsocketClose,
            ASGISendEvent::WebsocketSend(_) => SendEventKind::WebsocketSend,
            ASGISendEvent::Error(_) => SendEventKind::Error,
            ASGISendEvent::AppReturned => SendEventKind::AppReturned,
        }
    }

    #[verifier::when_used_as_spec(spec_kind)]
    pub fn kind(&self) -> (r: SendEventKind)
        ensures
            r == self.spec_kind(),
    {
        match self {
            ASGISendEvent::StartupComplete(_) => SendEventKind::StartupComplete,
            ASGISendEvent::StartupFailed(_) => SendEventKind::StartupFailed,
            ASGISendEvent::ShutdownComplete(_) => SendEventKind::ShutdownComplete,
            ASGISendEvent::ShutdownFailed(_) => SendEventKind::ShutdownFailed,
            ASGISendEvent::HTTPResponseStart(_) => SendEventKind::HTTPResponseStart,
            ASGISendEvent::HTTPResponseBody(_) => SendEventKind::HTTPResponseBody,
            ASGISendEvent::WebsocketAccept(_) => SendEventKind::WebsocketAccept,
            ASGISendEvent::WebsocketClose(_) => SendEventKind::WebsocketClose,
            ASGISendEvent::WebsocketSend(_) => SendEventKind::WebsocketSend,
            ASGISendEvent::Error(_) => SendEventKind::Error,
            ASGISendEvent::AppReturned => SendEventKind::AppReturned,
        }
    }

    pub fn new_startup_complete() -> (r: Self)
        ensures
            r is StartupComplete,
            r->StartupComplete_0.type_@ == "lifespan.startup.complete"@,
    {
        ASGISendEvent::StartupComplete(LifespanStartupComplete::new())
    }

    pub fn new_startup_failed(message: String) -> (r: Self)
        ensures
            r is StartupFailed,
            r->StartupFailed_0.type_@ == "lifespan.startup.failed"@,
            r->StartupFailed_0.message == message,
    {
        ASGISendEvent::StartupFailed(LifespanStartupFailed::new(message))
    }

    pub fn new_shutdown_complete() -> (r: Self)
        ensures
            r is ShutdownComplete,
            r->ShutdownComplete_0.type_@ == "lifespan.shutdown.complete"@,
    {
        ASGISendEvent::ShutdownComplete(LifespanShutdownComplete::new())
    }

    pub fn new_shutdown_failed(message: String) -> (r: Self)
        ensures
            r is ShutdownFailed,
            r->ShutdownFailed_0.type_@ == "lifespan.shutdown.failed"@,
            r->ShutdownFailed_0.message == message,
    {
        ASGISendEvent::ShutdownFailed(LifespanShutdownFailed::new(message))
    }

    pub fn new_http_response_start(status: u16, headers: Vec<(Vec<u8>, Vec<u8>)>) -> (r: Self)
        ensures
            r is HTTPResponseStart,
            r->HTTPResponseStart_0.type_@ == "http.response.start"@,
            r->HTTPResponseStart_0.status == status,
            r->HTTPResponseStart_0.headers == headers,
            !r->HTTPResponseStart_0.trailers,
    {
        ASGISendEvent::HTTPResponseStart(HTTPResponseStartEvent::new(status, headers))
    }

    pub fn new_http_response_body(data: Vec<u8>, more_body: bool) -> (r: Self)
        ensures
            r is HTTPResponseBody,
            r->HTTPResponseBody_0.type_@ == "http.response.body"@,
            r->HTTPResponseBody_0.body == data,
            r->HTTPResponseBody_0.more_body == more_body,
    {
        ASGISendEvent::HTTPResponseBody(HTTPResonseBodyEvent::new(data, more_body))
    }

    pub fn new_websocket_accept(subprotocol: Option<String>, headers: Vec<(Vec<u8>, Vec<u8>)>) -> (r: Self)
        ensures
            r is WebsocketAccept,
            r->WebsocketAccept_0.type_@ == "websocket.accept"@,
            r->WebsocketAccept_0.subprotocol == subprotocol,
            r->WebsocketAccept_0.headers == headers,
    {
        ASGISendEvent::WebsocketAccept(WebsocketAcceptEvent::new(subprotocol, headers))
    }

    pub fn new_websocket_close(code: Option<usize>, reason: String) -> (r: Self)
        ensures
            r is WebsocketClose,
            r->WebsocketClose_0.type_@ == "websocket.close"@,
            r->WebsocketClose_0.code == (match code {
                Some(c) => c,
                None => crate::websocket::NORMAL_CLOSURE,
            }),
            r->WebsocketClose_0.reason == reason,
    {
        ASGISendEvent::WebsocketClose(WebsocketCloseEvent::new(code, reason))
    }

    pub fn new_websocket_send(bytes: Option<Vec<u8>>, text: Option<String>) -> (r: Self)
        ensures
            r is WebsocketSend,
            r->WebsocketSend_0.type_@ == "websocket.send"@,
            r->WebsocketSend_0.bytes == bytes,
            r->WebsocketSend_0.text == text,
    {
        ASGISendEvent::WebsocketSend(WebsocketSendEvent::new(bytes, text))
    }

    pub fn new_error(err: String) -> (r: Self)
        ensures
            r == ASGISendEvent::Error(err),
    {
        ASGISendEvent::Error(err)
    }

    pub fn new_app_stopped() -> (r: Self)
        ensures
            r is AppReturned,
    {
        ASGISendEvent::AppReturned
    }
}

impl ASGIReceiveEvent {
    pub fn new_lifespan_startup() -> (r: Self)
        ensures
            r is Startup,
            r->Startup_0.type_@ == "lifespan.startup"@,
    {
        ASGIReceiveEvent::Startup(LifespanStartup::new())
    }

    pub fn new_lifespan_shutdown() -> (r: Self)
        ensures
            r is Shutdown,
            r->Shutdown_0.type_@ == "lifespan.shutdown"@,
    {
        ASGIReceiveEvent::Shutdown(LifespanShutdown::new())
    }

    pub fn new_http_request(data: Vec<u8>, more_body: bool) -> (r: Self)
        ensures
            r is HTTPRequest,
            r->HTTPRequest_0.type_@ == "http.request"@,
            r->HTTPRequest_0.body == data,
            r->HTTPRequest_0.more_body == more_body,
    {
        ASGIReceiveEvent::HTTPRequest(HTTPRequestEvent::new(data, more_body))
    }

    pub fn new_http_disconnect() -> (r: Self)
        ensures
            r is HTTPDisconnect,
            r->HTTPDisconnect_0.type_@ == "http.disconnect"@,
    {
        ASGIReceiveEvent::HTTPDisconnect(HTTPDisconnectEvent::new())
    }

    pub fn new_websocket_connect() -> (r: Self)
        ensures
            r is WebsocketConnect,
            r->WebsocketConnect_0.type_@ == "websocket.connect"@,
    {
        ASGIReceiveEvent::WebsocketConnect(WebsocketConnectEvent::new())
    }

    pub fn new_websocket_receive(bytes: Option<Vec<u8>>, text: Option<String>) -> (r: Self)
        ensures
            r is WebsocketReceive,
            r->WebsocketReceive_0.type_@ == "websocket.receive"@,
            r->WebsocketReceive_0.bytes == bytes,
            r->WebsocketReceive_0.text == text,
    {
        ASGIReceiveEvent::WebsocketReceive(WebsocketReceiveEvent::new(bytes, text))
    }

    pub fn new_websocket_disconnect(code: usize) -> (r: Self)
        ensures
            r is WebsocketDisconnect,
            r->WebsocketDisconnect_0.type_@ == "websocket.disconnect"@,
            r->WebsocketDisconnect_0.code == code,
    {
        ASGIReceiveEvent::WebsocketDisconnect(WebsocketDisconnectEvent::new(code))
    }
}

} // verus!
