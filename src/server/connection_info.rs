use vstd::prelude::*;

verus! {

/// The two ends of an accepted connection.
#[derive(Clone, Debug)]
pub struct ConnectionInfo {
    pub client_ip: String,
    pub server_ip: String,
    pub client_port: u16,
    pub server_port: u16,
}

impl ConnectionInfo {
    pub fn new(client_ip: String, client_port: u16, server_ip: String, server_port: u16) -> (r: Self)
        ensures
            r.client_ip == client_ip,
            r.client_port == client_port,
            r.server_ip == server_ip,
            r.server_port == server_port,
    {
        ConnectionInfo { client_ip, server_ip, client_port, server_port }
    }
}

} // verus!
