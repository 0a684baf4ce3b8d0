use vstd::prelude::*;

verus! {

/// Tells the application that a client asks for a WebSocket (`websocket.connect`).
#[derive(Debug)]
pub struct WebsocketConnectEvent {
    pub type_: String,
}

impl WebsocketConnectEvent {
    pub fn new() -> (r: Self)
        ensures
            r.type_@ == "websocket.connect"@,
    {
        WebsocketConnectEvent { type_: "websocket.connect".to_owned() }
    }
}

/// The application accepts the WebSocket (`websocket.accept`).
#[derive(Debug)]
pub struct WebsocketAcceptEvent {
    pub type_: String,
    pub subprotocol: Option<String>,
    pub headers: Vec<(Vec<u8>, Vec<u8>)>,
}

impl WebsocketAcceptEvent {
    pub fn new(subprotocol: Option<String>, headers: Vec<(Vec<u8>, Vec<u8>)>) -> (r: Self)
        ensures
            r.type_@ == "websocket.accept"@,
            r.subprotocol == subprotocol,
            r.headers == headers,
    {
        WebsocketAcceptEvent { type_: "websocket.accept".to_owned(), subprotocol, headers }
    }
}

/// A message from the client, handed to the application (`websocket.receive`).
#[derive(Debug)]
pub struct WebsocketReceiveEvent {
    pub type_: String,
    pub bytes: Option<Vec<u8>>,
    pub text: Option<String>,
}

impl WebsocketReceiveEvent {
    pub fn new(bytes: Option<Vec<u8>>, text: Option<String>) -> (r: Self)
        ensures
            r.type_@ == "websocket.receive"@,
            r.bytes == bytes,
            r.text == text,
    {
        WebsocketReceiveEvent { type_: "websocket.receive".to_owned(), bytes, text }
    }
}

/// A message from the application to the client (`websocket.send`).
#[derive(Debug)]
pub struct WebsocketSendEvent {
    pub type_: String,
    pub bytes: Option<Vec<u8>>,
    pub text: Option<String>,
}

impl WebsocketSendEvent {
    pub fn new(bytes: Option<Vec<u8>>, text: Option<String>) -> (r: Self)
        ensures
            r.type_@ == "websocket.send"@,
            r.bytes == bytes,
            r.text == text,
    {
        WebsocketSendEvent { type_: "websocket.send".to_owned(), bytes, text }
    }
}

/// The close code used when the peer closed without giving one.
pub const NO_STATUS_RECEIVED: usize = 1005;

/// The close code used when the application gives none.
pub const NORMAL_CLOSURE: usize = 1000;

/// Tells the application that the WebSocket is closed (`websocket.disconnect`).
#[derive(Debug)]
pub struct WebsocketDisconnectEvent {
    pub type_: String,
    pub code: usize,
}

impl WebsocketDisconnectEvent {
    pub fn new(code: usize) -> (r: Self)
        ensures
            r.type_@ == "websocket.disconnect"@,
            r.code == code,
    {
        WebsocketDisconnectEvent { type_: "websocket.disconnect".to_owned(), code }
    }
}

impl Default for WebsocketDisconnectEvent {
    fn default() -> (r: Self)
        ensures
            r.type_@ == "websocket.disconnect"@,
            r.code == NO_STATUS_RECEIVED,
    {
        WebsocketDisconnectEvent::new(NO_STATUS_RECEIVED)
    }
}

/// The application closes the WebSocket, or refuses it before the upgrade (`websocket.close`).
#[derive(Debug)]
pub struct WebsocketCloseEvent {
    pub type_: String,
    pub code: usize,
    pub reason: String,
}

impl WebsocketCloseEvent {
    pub fn new(code: Option<usize>, reason: String) -> (r: Self)
        ensures
            r.type_@ == "websocket.close"@,
            r.code == (match code {
                Some(c) => c,
                None => NORMAL_CLOSURE,
            }),
            r.reason == reason,
    {
        let code = match code {
            Some(c) => c,
            None => NORMAL_CLOSURE,
        };
        WebsocketCloseEvent { type_: "websocket.close".to_owned(), code, reason }
    }
}

} // verus!
