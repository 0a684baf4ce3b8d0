use vstd::prelude::*;

use crate::asgispec::ASGIScope;
use crate::server::ConnectionInfo;

verus! {

/// The scope handed to the application for one HTTP request.
#[derive(Debug, Clone)]
pub struct HTTPScope<S: Clone + Send + Sync> {
    pub type_: String,
    pub asgi: ASGIScope,
    pub http_version: String,
    pub method: String,
    pub scheme: String,
    pub path: String,
    pub raw_path: Vec<u8>,
    pub query_string: Vec<u8>,
    pub root_path: String,
    pub headers: Vec<(Vec<u8>, Vec<u8>)>,
    pub client: Option<(String, u16)>,
    pub server: Option<(String, u16)>,
    pub state: S,
}

impl<S: Clone + Send + Sync> HTTPScope<S> {
    /// A scope for a request whose connection ends are not known yet.
    pub fn new(
        http_version: String,
        method: String,
        path: String,
        raw_path: Vec<u8>,
        query_string: Vec<u8>,
        headers: Vec<(Vec<u8>, Vec<u8>)>,
        state: S,
    ) -> (r: Self)
        ensures
            r.type_@ == "http"@,
            r.asgi.is_current(),
            r.http_version == http_version,
            r.method == method,
            r.scheme@ == "http"@,
            r.path == path,
            r.raw_path == raw_path,
            r.query_string == query_string,
            r.root_path@.len() == 0,
            r.headers == headers,
            r.client.is_none(),
            r.server.is_none(),
            r.state == state,
    {
        HTTPScope {
            type_: "http".to_owned(),
            asgi: ASGIScope::new(),
            http_version,
            method,
            scheme: "http".to_owned(),
            path,
            raw_path,
            query_string,
            root_path: String::new(),
            headers,
            client: None,
            server: None,
            state,
        }
    }

    pub fn set_conn_info(&mut self, info: &ConnectionInfo)
        ensures
            final(self).client == Some((info.client_ip, info.client_port)),
            final(self).server == Some((info.server_ip, info.server_port)),
            final(self).type_ == old(self).type_,
            final(self).asgi == old(self).asgi,
            final(self).http_version == old(self).http_version,
            final(self).method == old(self).method,
            final(self).scheme == old(self).scheme,
            final(self).path == old(self).path,
            final(self).raw_path == old(self).raw_path,
            final(self).query_string == old(self).query_string,
            final(self).root_path == old(self).root_path,
            final(self).headers == old(self).headers,
            final(self).state == old(self).state,
    {
        self.client = Some((info.client_ip.clone(), info.client_port));
        self.server = Some((info.server_ip.clone(), info.server_port));
    }
}

} // verus!
