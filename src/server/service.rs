use vstd::prelude::*;
use vstd::string::*;

use crate::application::ApplicationFactory;
use crate::asgispec::{Scope, State};
use crate::http::HTTPScope;
use crate::server::ConnectionInfo;
use crate::websocket::{offered_subprotocols, WebsocketScope};
use crate::server::headers::{bytes_eq_ignore_ascii_case, eq_ignore_ascii_case, find_header, first_named};

verus! {

/// Whether some header is `Upgrade: websocket`, name and value compared without ASCII case.
pub open spec fn asks_websocket(headers: Seq<(Vec<u8>, Vec<u8>)>) -> bool {
    exists|i: int|
        0 <= i < headers.len() && eq_ignore_ascii_case(#[trigger] headers[i].0@, "upgrade".spec_bytes())
            && eq_ignore_ascii_case(headers[i].1@, "websocket".spec_bytes())
}

/// Decides whether a request is a WebSocket handshake rather than a plain HTTP request.
pub fn should_upgrade_to_websocket(headers: &Vec<(Vec<u8>, Vec<u8>)>) -> (r: bool)
    ensures
        r == asks_websocket(headers@),
{
    let upgrade = "upgrade".as_bytes();
    let websocket = "websocket".as_bytes();
    let mut i: usize = 0;
    while i < headers.len()
        invariant
            0 <= i <= headers@.len(),
            upgrade@ == "upgrade".spec_bytes(),
            websocket@ == "websocket".spec_bytes(),
            forall|j: int|
                0 <= j < i ==> !(eq_ignore_ascii_case(#[trigger] headers@[j].0@, "upgrade".spec_bytes())
                    && eq_ignore_ascii_case(headers@[j].1@, "websocket".spec_bytes())),
        decreases headers@.len() - i,
    {
        if bytes_eq_ignore_ascii_case(headers[i].0.as_slice(), upgrade) && bytes_eq_ignore_ascii_case(
            headers[i].1.as_slice(),
            websocket,
        ) {
            return true;
        }
        i = i + 1;
    }
    false
}

/// What the dispatcher reads from a request to build its scope.
#[derive(Debug)]
pub struct RequestHead {
    pub http_version: String,
    pub method: String,
    /// The decoded path.
    pub path: String,
    /// The request target as it came, undecoded.
    pub raw_path: Vec<u8>,
    pub query_string: Vec<u8>,
    pub headers: Vec<(Vec<u8>, Vec<u8>)>,
}

/// The dispatcher of one connection: builds the scope of each request it accepts.
pub struct ASGIService<S: State, T> {
    pub app_factory: ApplicationFactory<T>,
    pub conn_info: ConnectionInfo,
    pub state: S,
}

impl<S: State, T> ASGIService<S, T> {
    pub fn new(app_factory: ApplicationFactory<T>, conn_info: ConnectionInfo, state: S) -> (r: Self)
        ensures
            r.app_factory == app_factory,
            r.conn_info == conn_info,
            r.state == state,
    {
        ASGIService { app_factory, conn_info, state }
    }

    /// The scope of a request: a WebSocket scope when it asks for `Upgrade: websocket`,
    /// else an HTTP scope; both carry the connection's two ends.
    pub fn scope_for(&self, head: RequestHead) -> (r: Scope<S>)
        ensures
            asks_websocket(head.headers@) <==> r is Websocket,
            r is Websocket ==> {
                let w = r->Websocket_0;
                &&& w.type_@ == "websocket"@
                &&& w.asgi.is_current()
                &&& w.scheme@ == "http"@
                &&& w.root_path@.len() == 0
                &&& w.http_version == head.http_version
                &&& w.path == head.path
                &&& w.raw_path == head.raw_path
                &&& w.query_string == head.query_string
                &&& w.headers == head.headers
                &&& w.subprotocols@.map_values(|t: String| t@) == offered_subprotocols(head.headers@)
                &&& w.client == Some((self.conn_info.client_ip, self.conn_info.client_port))
                &&& w.server == Some((self.conn_info.server_ip, self.conn_info.server_port))
            },
            r is HTTP ==> {
                let h = r->HTTP_0;
                &&& h.type_@ == "http"@
                &&& h.asgi.is_current()
                &&& h.scheme@ == "http"@
                &&& h.root_path@.len() == 0
                &&& h.http_version == head.http_version
                &&& h.method == head.method
                &&& h.path == head.path
                &&& h.raw_path == head.raw_path
                &&& h.query_string == head.query_string
                &&& h.headers == head.headers
                &&& h.client == Some((self.conn_info.client_ip, self.conn_info.client_port))
                &&& h.server == Some((self.conn_info.server_ip, self.conn_info.server_port))
            },
    {
        let state = self.state.clone();
        if should_upgrade_to_websocket(&head.headers) {
            let mut scope = WebsocketScope::from_request(
                head.http_version,
                head.path,
                head.raw_path,
                head.query_string,
                head.headers,
                state,
            );
            scope.set_conn_info(&self.conn_info);
            Scope::Websocket(scope)
        } else {
            let mut scope = HTTPScope::new(
                head.http_version,
                head.method,
                head.path,
                head.raw_path,
                head.query_string,
                head.headers,
                state,
            );
            scope.set_conn_info(&self.conn_info);
            Scope::HTTP(scope)
        }
    }
}

/// Whether the first header named `transfer-encoding` (without ASCII case) is exactly `chunked`.
pub open spec fn is_chunked(headers: Seq<(Vec<u8>, Vec<u8>)>) -> bool {
    match first_named(headers, "transfer-encoding".spec_bytes()) {
        Some(i) => headers[i].1@ == "chunked".spec_bytes(),
        None => false,
    }
}

/// Decides whether a request's body comes in chunks of unannounced length.
pub fn is_chunked_request(headers: &Vec<(Vec<u8>, Vec<u8>)>) -> (r: bool)
    ensures
        r == is_chunked(headers@),
{
    match find_header(headers, "transfer-encoding".as_bytes()) {
        Some(i) => {
            let chunked = "chunked".as_bytes();
            let v = headers[i].1.as_slice();
            if v.len() != chunked.len() {
                return false;
            }
            let mut k: usize = 0;
            while k < v.len()
                invariant
                    i < headers@.len(),
                    first_named(headers@, "transfer-encoding".spec_bytes()) == Some(i as int),
                    v@ == headers@[i as int].1@,
                    chunked@ == "chunked".spec_bytes(),
                    v@.len() == chunked@.len(),
                    0 <= k <= v@.len(),
                    forall|j: int| 0 <= j < k ==> v@[j] == chunked@[j],
                decreases v@.len() - k,
            {
                if v[k] != chunked[k] {
                    return false;
                }
                k = k + 1;
            }
            proof {
                assert(v@ =~= chunked@);
            }
            true
        },
        None => false,
    }
}

/// Whether the body-size guard turns a request away with `413` before the application
/// is invoked: a body of unknown length, or one longer than `max_size`. Chunked requests
/// are let through.
pub open spec fn body_rejected(chunked: bool, length: Option<u64>, max_size: u64) -> bool {
    !chunked && match length {
        Some(n) => n > max_size,
        None => true,
    }
}

/// The guard that turns away requests whose body is too large.
#[derive(Debug, Clone, Copy)]
pub struct ContentLengthLimit {
    pub max_size: u64,
}

impl ContentLengthLimit {
    pub fn new(max_size: u64) -> (r: Self)
        ensures
            r.max_size == max_size,
    {
        ContentLengthLimit { max_size }
    }

    /// Decides on a request whose body is chunked or not, and whose length is known to be
    /// at most `length` when that is given.
    pub fn rejects(&self, chunked: bool, length: Option<u64>) -> (r: bool)
        ensures
            r == body_rejected(chunked, length, self.max_size),
    {
        if chunked {
            return false;
        }
        match length {
            Some(n) => n > self.max_size,
            None => true,
        }
    }
}

/// Whether the concurrency guard lets a request through: it turns requests away with `503`,
/// without invoking the application, when no permit is left.
pub fn concurrency_admits(available_permits: usize) -> (r: bool)
    ensures
        r == (available_permits > 0),
{
    available_permits > 0
}

} // verus!
