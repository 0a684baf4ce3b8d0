use vstd::prelude::*;
use vstd::string::*;

use crate::asgispec::{event_rendering, kind_of, render_event, ASGISendEvent, SendEventKind};

verus! {

/// What can go wrong while serving the application.
#[derive(Debug)]
pub enum Error {
    /// A failure that fits no other kind, with its message.
    Custom(String),
    /// The application sent an event after the server tore the connection down.
    DisconnectedClient(String),
    /// The application or the server stopped before the phase was complete.
    UnexpectedShutdown { src: String, reason: String },
    /// The application emitted an event that does not belong to the current scope,
    /// or the bus ended (`None`) where an event was due; with the event's kind and how
    /// it reads.
    UnexpectedASGIMessage { received: Option<SendEventKind>, rendering: String },
    /// The application emitted an event of the scope that its current state does not allow.
    InvalidStateChange { received: SendEventKind },
    /// The application gave a status that no HTTP response can carry.
    InvalidStatusCode(u16),
    /// The application raised, with its message.
    ApplicationError(String),
    /// Reading from or writing to the peer failed, with a description.
    Transport(String),
}

pub type Result<T> = std::result::Result<T, Error>;

/// The kind of failure that a contract promises, with what the error must carry.
pub enum Failure {
    /// `UnexpectedShutdown` from the application, which quit while its HTTP request was open.
    AppQuit,
    /// `InvalidStateChange` on an event of this kind.
    StateChange(SendEventKind),
    /// `UnexpectedASGIMessage` on this event.
    Foreign(ASGISendEvent),
    /// `ApplicationError` with this message.
    Raised(Seq<char>),
    /// `InvalidStatusCode` with this status.
    BadStatus(u16),
}

/// Whether `e` is the error that `f` describes.
pub open spec fn error_is(e: Error, f: Failure) -> bool {
    match f {
        Failure::AppQuit => e is UnexpectedShutdown && e->src@ == "application"@ && e->reason@
            == quit_while_http_open(),
        Failure::StateChange(k) => e == (Error::InvalidStateChange { received: k }),
        Failure::Foreign(ev) => is_unexpected_message(e, Some(ev)),
        Failure::Raised(m) => e is ApplicationError && e->ApplicationError_0@ == m,
        Failure::BadStatus(s) => e == Error::InvalidStatusCode(s),
    }
}

/// Whether `e` is the error for the unexpected (optional) event `event`.
pub open spec fn is_unexpected_message(e: Error, event: Option<ASGISendEvent>) -> bool {
    match e {
        Error::UnexpectedASGIMessage { received, rendering } => received == kind_of(event) && rendering@
            == event_rendering(event),
        _ => false,
    }
}

/// The reason given when an application quits while its HTTP request is open.
pub open spec fn quit_while_http_open() -> Seq<char> {
    "application quit while open http connection"@
}

impl Error {
    pub fn custom(val: String) -> (r: Self)
        ensures
            r == Error::Custom(val),
    {
        Error::Custom(val)
    }

    pub fn disconnected_client() -> (r: Self)
        ensures
            r is DisconnectedClient,
            r->DisconnectedClient_0@ == "Disconnected client"@,
    {
        Error::DisconnectedClient("Disconnected client".to_owned())
    }

    pub fn unexpected_shutdown(src: &str, reason: String) -> (r: Self)
        ensures
            r is UnexpectedShutdown,
            r->src@ == src@,
            r->reason == reason,
    {
        Error::UnexpectedShutdown { src: src.to_owned(), reason }
    }

    pub fn unexpected_asgi_message(received: Option<ASGISendEvent>) -> (r: Self)
        ensures
            is_unexpected_message(r, received),
    {
        let rendering = render_event(&received);
        let kind = match &received {
            Some(e) => Some(e.kind()),
            None => None,
        };
        Error::UnexpectedASGIMessage { received: kind, rendering }
    }

    /// The text that describes the error.
    pub open spec fn spec_message(&self) -> Seq<char> {
        match self {
            Error::Custom(m) => m@,
            Error::DisconnectedClient(m) => m@,
            Error::UnexpectedShutdown { src, reason } => src@ + " shutdown unexpectedly. "@ + reason@,
            Error::UnexpectedASGIMessage { rendering, .. } => "Unexpected ASGI message received. "@
                + rendering@,
            Error::InvalidStateChange { received } => "Invalid state change on "@ + received.spec_name(),
            Error::InvalidStatusCode(_) => "Invalid status code"@,
            Error::ApplicationError(m) => m@,
            Error::Transport(m) => m@,
        }
    }

    pub fn message(&self) -> (r: String)
        ensures
            r@ == self.spec_message(),
    {
        match self {
            Error::Custom(m) => m.clone(),
            Error::DisconnectedClient(m) => m.clone(),
            Error::UnexpectedShutdown { src, reason } => {
                let mut out = src.clone();
                out.append(" shutdown unexpectedly. ");
                out.append(reason.as_str());
                out
            },
            Error::UnexpectedASGIMessage { rendering, .. } => {
                let mut out = "Unexpected ASGI message received. ".to_owned();
                out.append(rendering.as_str());
                out
            },
            Error::InvalidStateChange { received } => {
                let mut out = "Invalid state change on ".to_owned();
                out.append(received.name());
                out
            },
            Error::InvalidStatusCode(_) => "Invalid status code".to_owned(),
            Error::ApplicationError(m) => m.clone(),
            Error::Transport(m) => m.clone(),
        }
    }
}

} // verus!
