use vstd::prelude::*;
use vstd::slice::slice_to_vec;
use vstd::string::*;

use crate::asgispec::{headers_view, ASGIReceiveEvent, ASGISendEvent};
use crate::error::{error_is, Error, Failure};
use crate::http::handler::{request_body_of, request_events_well_formed, response_step, ResponseAction, ResponseBuilder, ResponsePhase};

verus! {

/// A whole response: status, headers in order, and body.
#[derive(Debug)]
pub struct ResponseData {
    pub status: u16,
    pub headers: Vec<(Vec<u8>, Vec<u8>)>,
    pub body: Vec<u8>,
}

/// Builds the response of `events` from `phase` on, given what was gathered so far;
/// `None` events left where the response is not done means the application quit.
pub open spec fn collected(
    phase: ResponsePhase,
    events: Seq<ASGISendEvent>,
    status: u16,
    headers: Seq<(Vec<u8>, Vec<u8>)>,
    body: Seq<u8>,
) -> Result<(u16, Seq<(Vec<u8>, Vec<u8>)>, Seq<u8>), Failure>
    decreases events.len(),
{
    if phase == ResponsePhase::Done {
        Ok((status, headers, body))
    } else if events.len() == 0 {
        Err(Failure::AppQuit)
    } else {
        match response_step(phase, Some(events[0])) {
            Err(f) => Err(f),
            Ok(p) => match events[0] {
                ASGISendEvent::HTTPResponseStart(s) => collected(
                    p,
                    events.drop_first(),
                    s.status,
                    s.headers@,
                    body,
                ),
                ASGISendEvent::HTTPResponseBody(b) => collected(
                    p,
                    events.drop_first(),
                    status,
                    headers,
                    body + b.body@,
                ),
                _ => Err(Failure::AppQuit),
            },
        }
    }
}

/// The response that the application's events make, read from the start of the request.
pub open spec fn response_of(events: Seq<ASGISendEvent>) -> Result<
    (u16, Seq<(Vec<u8>, Vec<u8>)>, Seq<u8>),
    Failure,
> {
    collected(ResponsePhase::Init, events, 0, Seq::empty(), Seq::empty())
}

proof fn lemma_streaming_shape(
    events: Seq<ASGISendEvent>,
    status: u16,
    headers: Seq<(Vec<u8>, Vec<u8>)>,
    body: Seq<u8>,
) -> (n: int)
    requires
        collected(ResponsePhase::Streaming, events, status, headers, body) is Ok,
    ensures
        1 <= n <= events.len(),
        forall|i: int| 0 <= i < n ==> (#[trigger] events[i]) is HTTPResponseBody,
        !events[n - 1]->HTTPResponseBody_0.more_body,
    decreases events.len(),
{
    let e = events[0];
    match e {
        ASGISendEvent::HTTPResponseBody(b) => {
            if b.more_body {
                let m = lemma_streaming_shape(events.drop_first(), status, headers, body + b.body@);
                assert forall|i: int| 0 <= i < m + 1 implies (#[trigger] events[i]) is HTTPResponseBody by {
                    if i > 0 {
                        assert(events[i] == events.drop_first()[i - 1]);
                    }
                }
                assert(events[m] == events.drop_first()[m - 1]);
                m + 1
            } else {
                1
            }
        },
        _ => 1,
    }
}

/// Every sequence of events that makes a response starts with one `http.response.start`,
/// followed by body chunks only, up to the one without `more_body`.
pub proof fn lemma_response_shape(events: Seq<ASGISendEvent>) -> (n: int)
    requires
        response_of(events) is Ok,
    ensures
        2 <= n <= events.len(),
        events[0] is HTTPResponseStart,
        forall|i: int| 1 <= i < n ==> (#[trigger] events[i]) is HTTPResponseBody,
        !events[n - 1]->HTTPResponseBody_0.more_body,
{
    let e = events[0];
    match e {
        ASGISendEvent::HTTPResponseStart(st) => {
            let m = lemma_streaming_shape(events.drop_first(), st.status, st.headers@, Seq::empty());
            assert forall|i: int| 1 <= i < m + 1 implies (#[trigger] events[i]) is HTTPResponseBody by {
                assert(events[i] == events.drop_first()[i - 1]);
            }
            assert(events[m] == events.drop_first()[m - 1]);
            m + 1
        },
        _ => 2,
    }
}

/// Echo: whatever chunks the request body came in, an application that answers
/// `http.response.start { 200, [] }` then one last chunk holding the concatenation of
/// the request events' bodies makes a `200` response whose body is the request body.
pub proof fn lemma_echo(
    requests: Seq<ASGIReceiveEvent>,
    start: crate::http::HTTPResponseStartEvent,
    answer: crate::http::HTTPResonseBodyEvent,
)
    requires
        request_events_well_formed(requests, true),
        start.status == 200,
        start.headers@.len() == 0,
        answer.body@ == request_body_of(requests),
        !answer.more_body,
    ensures
        response_of(
            seq![ASGISendEvent::HTTPResponseStart(start), ASGISendEvent::HTTPResponseBody(answer)],
        ) == Ok::<(u16, Seq<(Vec<u8>, Vec<u8>)>, Seq<u8>), Failure>(
            (200, Seq::empty(), request_body_of(requests)),
        ),
{
    let events = seq![ASGISendEvent::HTTPResponseStart(start), ASGISendEvent::HTTPResponseBody(answer)];
    let rest = events.drop_first();
    assert(rest =~= seq![ASGISendEvent::HTTPResponseBody(answer)]);
    assert(rest.drop_first() =~= Seq::<ASGISendEvent>::empty());
    assert(Seq::<u8>::empty() + answer.body@ =~= answer.body@);
    assert(start.headers@ =~= Seq::<(Vec<u8>, Vec<u8>)>::empty());
    assert(collected(ResponsePhase::Done, rest.drop_first(), 200, start.headers@, answer.body@) == Ok::<
        (u16, Seq<(Vec<u8>, Vec<u8>)>, Seq<u8>),
        Failure,
    >((200, start.headers@, answer.body@)));
    assert(collected(ResponsePhase::Streaming, rest, 200, start.headers@, Seq::empty()) == collected(
        ResponsePhase::Done,
        rest.drop_first(),
        200,
        start.headers@,
        answer.body@,
    ));
}

/// Gathers the whole response from the application's events, in order. Events after
/// the last body chunk are not read.
pub fn collect_response(events: Vec<ASGISendEvent>) -> (r: Result<ResponseData, Error>)
    ensures
        match response_of(events@) {
            Ok((status, headers, body)) => r is Ok && r->Ok_0.status == status && r->Ok_0.headers@
                == headers && r->Ok_0.body@ == body,
            Err(f) => r is Err && error_is(r->Err_0, f),
        },
{
    let mut rest = events;
    let mut builder = ResponseBuilder::new();
    let mut status: u16 = 0;
    let mut headers: Vec<(Vec<u8>, Vec<u8>)> = Vec::new();
    let mut body: Vec<u8> = Vec::new();
    while builder.current_phase() != ResponsePhase::Done
        invariant
            response_of(events@) == collected(builder.phase(), rest@, status, headers@, body@),
        decreases rest@.len(),
    {
        let ghost before = rest@;
        let next = if rest.len() == 0 {
            None
        } else {
            Some(rest.remove(0))
        };
        proof {
            if before.len() > 0 {
                assert(rest@ =~= before.drop_first());
            }
        }
        match builder.on_app_event(next) {
            Ok(ResponseAction::Start { status: s, headers: h }) => {
                status = s;
                headers = h;
            },
            Ok(ResponseAction::Body { body: b, more_body: _ }) => {
                let mut chunk = b;
                body.append(&mut chunk);
            },
            Err(e) => {
                return Err(e);
            },
        }
    }
    Ok(ResponseData { status, headers, body })
}

impl ResponseData {
    pub fn new(status: u16, headers: Vec<(Vec<u8>, Vec<u8>)>, body: Vec<u8>) -> (r: Self)
        ensures
            r.status == status,
            r.headers == headers,
            r.body == body,
    {
        ResponseData { status, headers, body }
    }

    pub fn add_header(self, key: &str, value: &str) -> (r: Self)
        ensures
            r.status == self.status,
            r.body == self.body,
            headers_view(r.headers@) == headers_view(self.headers@).push((key.spec_bytes(), value.spec_bytes())),
    {
        let mut out = self;
        out.headers.push((slice_to_vec(key.as_bytes()), slice_to_vec(value.as_bytes())));
        proof {
            assert(headers_view(out.headers@) =~= headers_view(self.headers@).push(
                (key.spec_bytes(), value.spec_bytes()),
            ));
        }
        out
    }

    /// A 500 with no headers, for a request that failed.
    pub fn new_500() -> (r: Self)
        ensures
            r.status == 500,
            r.headers@.len() == 0,
            r.body@ == "Internal server error".spec_bytes(),
    {
        ResponseData::new(500, Vec::new(), slice_to_vec("Internal server error".as_bytes()))
    }

    /// A 400 with `body` as its text, for a request that could not be read.
    pub fn new_400(body: &str) -> (r: Self)
        ensures
            r.status == 400,
            r.headers@.len() == 0,
            r.body@ == body.spec_bytes(),
    {
        ResponseData::new(400, Vec::new(), slice_to_vec(body.as_bytes()))
    }

    /// A plain-text response with `text` as its body.
    pub fn plain_text(status: u16, text: &str) -> (r: Self)
        ensures
            r.status == status,
            headers_view(r.headers@) == seq![("content-type".spec_bytes(), "text/plain".spec_bytes())],
            r.body@ == text.spec_bytes(),
    {
        let mut headers: Vec<(Vec<u8>, Vec<u8>)> = Vec::new();
        headers.push((slice_to_vec("content-type".as_bytes()), slice_to_vec("text/plain".as_bytes())));
        proof {
            assert(headers_view(headers@) =~= seq![("content-type".spec_bytes(), "text/plain".spec_bytes())]);
        }
        ResponseData::new(status, headers, slice_to_vec(text.as_bytes()))
    }

    /// What the server answers when serving a request failed before its response went out.
    pub fn internal_server_error() -> (r: Self)
        ensures
            r.status == 500,
            headers_view(r.headers@) == seq![("content-type".spec_bytes(), "text/plain".spec_bytes())],
            r.body@ == "Internal Server Error".spec_bytes(),
    {
        ResponseData::plain_text(500, "Internal Server Error")
    }

    /// What the server answers, without invoking the application, when it is at its
    /// limit of requests in flight.
    pub fn server_busy() -> (r: Self)
        ensures
            r.status == 503,
            headers_view(r.headers@) == seq![("content-type".spec_bytes(), "text/plain".spec_bytes())],
            r.body@ == "Server busy".spec_bytes(),
    {
        ResponseData::plain_text(503, "Server busy")
    }

    /// What the server answers, without invoking the application, to a body that is too
    /// large or of unknown length.
    pub fn payload_too_large() -> (r: Self)
        ensures
            r.status == 413,
            headers_view(r.headers@) == seq![("content-type".spec_bytes(), "text/plain".spec_bytes())],
            r.body@ == "Payload too large, or 'Content-length' not provided".spec_bytes(),
    {
        ResponseData::plain_text(413, "Payload too large, or 'Content-length' not provided")
    }
}

} // verus!
