use vstd::prelude::*;
use vstd::string::*;
use vstd::utf8::{decode_utf8, valid_utf8};

use crate::asgispec::{ASGIScope, State};
use crate::server::{bytes_eq_ignore_ascii_case, eq_ignore_ascii_case, ConnectionInfo};

verus! {

/// The scope handed to the application for one WebSocket connection.
#[derive(Debug, Clone)]
pub struct WebsocketScope<S: State> {
    pub type_: String,
    pub asgi: ASGIScope,
    pub http_version: String,
    pub scheme: String,
    pub path: String,
    pub raw_path: Vec<u8>,
    pub query_string: Vec<u8>,
    pub root_path: String,
    pub headers: Vec<(Vec<u8>, Vec<u8>)>,
    pub client: Option<(String, u16)>,
    pub server: Option<(String, u16)>,
    pub subprotocols: Vec<String>,
    pub state: S,
}

impl<S: State> WebsocketScope<S> {
    pub fn new(
        http_version: String,
        scheme: String,
        path: String,
        raw_path: Vec<u8>,
        query_string: Vec<u8>,
        root_path: String,
        headers: Vec<(Vec<u8>, Vec<u8>)>,
        client: Option<(String, u16)>,
        server: Option<(String, u16)>,
        subprotocols: Vec<String>,
        state: S,
    ) -> (r: Self)
        ensures
            r.type_@ == "websocket"@,
            r.asgi.is_current(),
            r.http_version == http_version,
            r.scheme == scheme,
            r.path == path,
            r.raw_path == raw_path,
            r.query_string == query_string,
            r.root_path == root_path,
            r.headers == headers,
            r.client == client,
            r.server == server,
            r.subprotocols == subprotocols,
            r.state == state,
    {
        WebsocketScope {
            type_: "websocket".to_owned(),
            asgi: ASGIScope::new(),
            http_version,
            scheme,
            path,
            raw_path,
            query_string,
            root_path,
            headers,
            client,
            server,
            subprotocols,
            state,
        }
    }

    /// The scope of a handshake request whose connection ends are not known yet: the
    /// subprotocols are those the client offers in its headers.
    pub fn from_request(
        http_version: String,
        path: String,
        raw_path: Vec<u8>,
        query_string: Vec<u8>,
        headers: Vec<(Vec<u8>, Vec<u8>)>,
        state: S,
    ) -> (r: Self)
        ensures
            r.type_@ == "websocket"@,
            r.asgi.is_current(),
            r.http_version == http_version,
            r.scheme@ == "http"@,
            r.path == path,
            r.raw_path == raw_path,
            r.query_string == query_string,
            r.root_path@.len() == 0,
            r.headers == headers,
            r.client is None,
            r.server is None,
            r.subprotocols@.map_values(|t: String| t@) == offered_subprotocols(headers@),
            r.state == state,
    {
        let subprotocols = parse_subprotocols(&headers);
        WebsocketScope::new(
            http_version,
            "http".to_owned(),
            path,
            raw_path,
            query_string,
            String::new(),
            headers,
            None,
            None,
            subprotocols,
            state,
        )
    }

    pub fn set_conn_info(&mut self, info: &ConnectionInfo)
        ensures
            final(self).client == Some((info.client_ip, info.client_port)),
            final(self).server == Some((info.server_ip, info.server_port)),
            final(self).type_ == old(self).type_,
            final(self).asgi == old(self).asgi,
            final(self).http_version == old(self).http_version,
            final(self).scheme == old(self).scheme,
            final(self).path == old(self).path,
            final(self).raw_path == old(self).raw_path,
            final(self).query_string == old(self).query_string,
            final(self).root_path == old(self).root_path,
            final(self).headers == old(self).headers,
            final(self).subprotocols == old(self).subprotocols,
            final(self).state == old(self).state,
    {
        self.client = Some((info.client_ip.clone(), info.client_port));
        self.server = Some((info.server_ip.clone(), info.server_port));
    }
}

/// Whether `c` is white space in the Unicode sense (the `White_Space` property).
pub open spec fn is_white_space(c: char) -> bool {
    let u = c as u32;
    ||| 0x9 <= u <= 0xD
    ||| u == 0x20
    ||| u == 0x85
    ||| u == 0xA0
    ||| u == 0x1680
    ||| 0x2000 <= u <= 0x200A
    ||| u == 0x2028
    ||| u == 0x2029
    ||| u == 0x202F
    ||| u == 0x205F
    ||| u == 0x3000
}

fn white_space(c: char) -> (r: bool)
    ensures
        r == is_white_space(c),
{
    let u = c as u32;
    (0x9 <= u && u <= 0xD) || u == 0x20 || u == 0x85 || u == 0xA0 || u == 0x1680 || (0x2000 <= u && u
        <= 0x200A) || u == 0x2028 || u == 0x2029 || u == 0x202F || u == 0x205F || u == 0x3000
}

/// The entries of one comma-separated list: white space dropped everywhere, one entry
/// for each stretch between commas (so an empty value gives one empty entry).
pub open spec fn comma_list(s: Seq<char>) -> Seq<Seq<char>>
    decreases s.len(),
{
    if s.len() == 0 {
        seq![Seq::empty()]
    } else {
        let prev = comma_list(s.drop_last());
        let c = s.last();
        if is_white_space(c) {
            prev
        } else if c == ',' {
            prev.push(Seq::empty())
        } else {
            prev.update(prev.len() - 1, prev.last().push(c))
        }
    }
}

proof fn lemma_comma_list_nonempty(s: Seq<char>)
    ensures
        comma_list(s).len() >= 1,
    decreases s.len(),
{
    if s.len() > 0 {
        lemma_comma_list_nonempty(s.drop_last());
    }
}

/// The text of a header value; a value that is not UTF-8 reads as empty.
pub open spec fn header_text(value: Seq<u8>) -> Seq<char> {
    if valid_utf8(value) {
        decode_utf8(value)
    } else {
        Seq::empty()
    }
}

/// The subprotocols a client offers: the entries of every `Sec-WebSocket-Protocol`
/// header (name compared without ASCII case), in order.
pub open spec fn offered_subprotocols(headers: Seq<(Vec<u8>, Vec<u8>)>) -> Seq<Seq<char>>
    decreases headers.len(),
{
    if headers.len() == 0 {
        Seq::empty()
    } else {
        let h = headers.last();
        offered_subprotocols(headers.drop_last()) + if eq_ignore_ascii_case(
            h.0@,
            "sec-websocket-protocol".spec_bytes(),
        ) {
            comma_list(header_text(h.1@))
        } else {
            Seq::empty()
        }
    }
}

/// Relies on String::from_utf8, which gives the text of the bytes exactly when they are UTF-8.
#[verifier::external_body]
fn utf8_text(bytes: &[u8]) -> (r: Option<String>)
    ensures
        r is Some <==> valid_utf8(bytes@),
        r matches Some(s) ==> s@ == decode_utf8(bytes@),
{
    String::from_utf8(bytes.to_vec()).ok()
}

/// Splits one comma-separated list, dropping white space.
pub fn split_comma_list(s: &str) -> (r: Vec<String>)
    ensures
        r@.map_values(|t: String| t@) == comma_list(s@),
{
    let n = s.unicode_len();
    let mut done: Vec<String> = Vec::new();
    let mut cur: String = String::new();
    let mut i: usize = 0;
    proof {
        assert(s@.subrange(0, 0) =~= Seq::<char>::empty());
        assert(done@.map_values(|t: String| t@).push(cur@) =~= comma_list(s@.subrange(0, 0)));
    }
    while i < n
        invariant
            n == s@.len(),
            0 <= i <= n,
            done@.map_values(|t: String| t@).push(cur@) == comma_list(s@.subrange(0, i as int)),
        decreases n - i,
    {
        let c = s.get_char(i);
        let ghost before = s@.subrange(0, i as int);
        proof {
            assert(s@.subrange(0, i + 1).drop_last() =~= before);
            assert(s@.subrange(0, i + 1).last() == c);
            lemma_comma_list_nonempty(before);
        }
        if white_space(c) {
        } else if c == ',' {
            let finished = cur;
            done.push(finished);
            cur = String::new();
            proof {
                assert(done@.map_values(|t: String| t@).push(cur@) =~= comma_list(before).push(
                    Seq::empty(),
                ));
            }
        } else {
            let ghost prev = cur@;
            cur.append(s.substring_char(i, i + 1));
            proof {
                assert(s@.subrange(i as int, i + 1) =~= seq![c]);
                assert(cur@ =~= prev.push(c));
                assert(comma_list(before) == done@.map_values(|t: String| t@).push(prev));
                assert(comma_list(before).last() == prev);
                assert(comma_list(before).len() - 1 == done@.len());
                assert(done@.map_values(|t: String| t@).push(cur@) =~= comma_list(before).update(
                    comma_list(before).len() - 1,
                    comma_list(before).last().push(c),
                ));
            }
        }
        i = i + 1;
    }
    proof {
        assert(s@.subrange(0, n as int) =~= s@);
    }
    done.push(cur);
    done
}

/// The subprotocols that a client offers in its handshake headers.
pub fn parse_subprotocols(headers: &Vec<(Vec<u8>, Vec<u8>)>) -> (r: Vec<String>)
    ensures
        r@.map_values(|t: String| t@) == offered_subprotocols(headers@),
{
    let name = "sec-websocket-protocol".as_bytes();
    let mut out: Vec<String> = Vec::new();
    let mut i: usize = 0;
    proof {
        assert(headers@.subrange(0, 0) =~= Seq::<(Vec<u8>, Vec<u8>)>::empty());
        assert(out@.map_values(|t: String| t@) =~= offered_subprotocols(headers@.subrange(0, 0)));
    }
    while i < headers.len()
        invariant
            0 <= i <= headers@.len(),
            name@ == "sec-websocket-protocol".spec_bytes(),
            out@.map_values(|t: String| t@) == offered_subprotocols(headers@.subrange(0, i as int)),
        decreases headers@.len() - i,
    {
        proof {
            assert(headers@.subrange(0, i + 1).drop_last() =~= headers@.subrange(0, i as int));
            assert(headers@.subrange(0, i + 1).last() == headers@[i as int]);
        }
        if bytes_eq_ignore_ascii_case(headers[i].0.as_slice(), name) {
            let text = match utf8_text(headers[i].1.as_slice()) {
                Some(t) => t,
                None => String::new(),
            };
            let mut parts = split_comma_list(text.as_str());
            let ghost old_out = out@;
            let ghost parts0 = parts@;
            out.append(&mut parts);
            proof {
                assert(out@ == old_out + parts0);
                assert(out@.map_values(|t: String| t@) =~= old_out.map_values(|t: String| t@)
                    + parts0.map_values(|t: String| t@));
            }
        } else {
            proof {
                assert(out@.map_values(|t: String| t@) =~= offered_subprotocols(
                    headers@.subrange(0, i as int),
                ) + Seq::<Seq<char>>::empty());
            }
        }
        i = i + 1;
    }
    proof {
        assert(headers@.subrange(0, headers@.len() as int) =~= headers@);
    }
    out
}

} // verus!
