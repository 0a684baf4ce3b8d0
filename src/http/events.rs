use vstd::prelude::*;

verus! {

/// A chunk of the request body, handed to the application (`http.request`).
#[derive(Debug)]
pub struct HTTPRequestEvent {
    pub type_: String,
    pub body: Vec<u8>,
    pub more_body: bool,
}

impl HTTPRequestEvent {
    pub fn new(body: Vec<u8>, more_body: bool) -> (r: Self)
        ensures
            r.type_@ == "http.request"@,
            r.body == body,
            r.more_body == more_body,
    {
        HTTPRequestEvent { type_: "http.request".to_owned(), body, more_body }
    }
}

/// The status line and headers of the response (`http.response.start`).
#[derive(Debug)]
pub struct HTTPResponseStartEvent {
    pub type_: String,
    pub status: u16,
    pub headers: Vec<(Vec<u8>, Vec<u8>)>,
    /// Whether the application will send trailers after the body.
    pub trailers: bool,
}

impl HTTPResponseStartEvent {
    pub fn new(status: u16, headers: Vec<(Vec<u8>, Vec<u8>)>) -> (r: Self)
        ensures
            r.type_@ == "http.response.start"@,
            r.status == status,
            r.headers == headers,
            !r.trailers,
    {
        HTTPResponseStartEvent { type_: "http.response.start".to_owned(), status, headers, trailers: false }
    }
}

/// A chunk of the response body (`http.response.body`).
#[derive(Debug)]
pub struct HTTPResonseBodyEvent {
    pub type_: String,
    pub body: Vec<u8>,
    pub more_body: bool,
}

impl HTTPResonseBodyEvent {
    pub fn new(body: Vec<u8>, more_body: bool) -> (r: Self)
        ensures
            r.type_@ == "http.response.body"@,
            r.body == body,
            r.more_body == more_body,
    {
        HTTPResonseBodyEvent { type_: "http.response.body".to_owned(), body, more_body }
    }
}

/// Tells the application that the request is over (`http.disconnect`).
#[derive(Debug)]
pub struct HTTPDisconnectEvent {
    pub type_: String,
}

impl HTTPDisconnectEvent {
    pub fn new() -> (r: Self)
        ensures
            r.type_@ == "http.disconnect"@,
    {
        HTTPDisconnectEvent { type_: "http.disconnect".to_owned() }
    }
}

} // verus!
