use vstd::prelude::*;

use crate::asgispec::{ASGIReceiveEvent, ASGISendEvent, SendEventKind};
use crate::error::{error_is, Error, Failure};

verus! {

/// Whether an HTTP response can carry `status`.
pub open spec fn valid_status(status: u16) -> bool {
    100 <= status <= 999
}

/// Relies on http::StatusCode::from_u16, which accepts exactly the numbers 100 to 999.
#[verifier::external_body]
fn status_code_accepted(status: u16) -> (r: bool)
    ensures
        r == valid_status(status),
{
    ::http::StatusCode::from_u16(status).is_ok()
}

/// Where the response of one request stands.
#[derive(Debug, Clone, Copy, PartialEq, Eq, Structural)]
pub enum ResponsePhase {
    /// No `http.response.start` yet.
    Init,
    /// The status and headers are known; body chunks follow.
    Streaming,
    /// The last body chunk came.
    Done,
}

/// Where an event from the application takes the response, or why it is refused.
/// `None` stands for the end of the application's events.
pub open spec fn response_step(phase: ResponsePhase, event: Option<ASGISendEvent>) -> Result<
    ResponsePhase,
    Failure,
> {
    match event {
        None => Err(Failure::AppQuit),
        Some(ASGISendEvent::AppReturned) => Err(Failure::AppQuit),
        Some(ASGISendEvent::Error(m)) => Err(Failure::Raised(m@)),
        Some(ASGISendEvent::HTTPResponseStart(s)) => if phase != ResponsePhase::Init {
            Err(Failure::StateChange(SendEventKind::HTTPResponseStart))
        } else if !valid_status(s.status) {
            Err(Failure::BadStatus(s.status))
        } else {
            Ok(ResponsePhase::Streaming)
        },
        Some(ASGISendEvent::HTTPResponseBody(b)) => if phase != ResponsePhase::Streaming {
            Err(Failure::StateChange(SendEventKind::HTTPResponseBody))
        } else if b.more_body {
            Ok(ResponsePhase::Streaming)
        } else {
            Ok(ResponsePhase::Done)
        },
        Some(other) => Err(Failure::Foreign(other)),
    }
}

/// A response has exactly one start, and it comes before every body chunk: from `Init`
/// only `http.response.start` is accepted, a body chunk is accepted only while streaming,
/// and once the response has left `Init` a second start is refused as an invalid state change.
pub proof fn lemma_single_start(phase: ResponsePhase, event: ASGISendEvent)
    ensures
        phase == ResponsePhase::Init && response_step(phase, Some(event)) is Ok
            ==> event is HTTPResponseStart,
        event is HTTPResponseBody && response_step(phase, Some(event)) is Ok ==> phase
            == ResponsePhase::Streaming,
        phase != ResponsePhase::Init && event is HTTPResponseStart ==> response_step(
            phase,
            Some(event),
        ) == Err::<ResponsePhase, Failure>(Failure::StateChange(SendEventKind::HTTPResponseStart)),
{
}

/// A response starts with the application's status when an HTTP response can carry it,
/// and is refused with `InvalidStatusCode` otherwise.
pub proof fn lemma_start_status(start: crate::http::HTTPResponseStartEvent)
    ensures
        response_step(ResponsePhase::Init, Some(ASGISendEvent::HTTPResponseStart(start))) == if valid_status(
            start.status,
        ) {
            Ok::<ResponsePhase, Failure>(ResponsePhase::Streaming)
        } else {
            Err::<ResponsePhase, Failure>(Failure::BadStatus(start.status))
        },
{
}

/// Emitting the last body chunk (`more_body` false) twice is an invalid state change.
pub proof fn lemma_last_body_twice(
    phase: ResponsePhase,
    first: crate::http::HTTPResonseBodyEvent,
    second: crate::http::HTTPResonseBodyEvent,
)
    requires
        !first.more_body,
        !second.more_body,
        response_step(phase, Some(ASGISendEvent::HTTPResponseBody(first))) is Ok,
    ensures
        response_step(phase, Some(ASGISendEvent::HTTPResponseBody(first))) == Ok::<
            ResponsePhase,
            Failure,
        >(ResponsePhase::Done),
        response_step(ResponsePhase::Done, Some(ASGISendEvent::HTTPResponseBody(second))) == Err::<
            ResponsePhase,
            Failure,
        >(Failure::StateChange(SendEventKind::HTTPResponseBody)),
{
}

/// What the server does with an accepted response event.
#[derive(Debug)]
pub enum ResponseAction {
    /// Send the status line and these headers.
    Start { status: u16, headers: Vec<(Vec<u8>, Vec<u8>)> },
    /// Send this chunk of the body; the body ends after it unless `more_body`.
    Body { body: Vec<u8>, more_body: bool },
}

/// The response side of the HTTP coordinator: checks each event from the application
/// against the protocol and says what to put on the wire.
pub struct ResponseBuilder {
    phase: ResponsePhase,
}

impl ResponseBuilder {
    pub fn new() -> (r: Self)
        ensures
            r.phase() == ResponsePhase::Init,
    {
        ResponseBuilder { phase: ResponsePhase::Init }
    }

    pub closed spec fn phase(&self) -> ResponsePhase {
        self.phase
    }

    #[verifier::when_used_as_spec(phase)]
    pub fn current_phase(&self) -> (r: ResponsePhase)
        ensures
            r == self.phase(),
    {
        self.phase
    }

    /// Takes the next event from the application (`None` when there are no more).
    /// A refused event leaves the phase as it was.
    pub fn on_app_event(&mut self, event: Option<ASGISendEvent>) -> (r: Result<ResponseAction, Error>)
        ensures
            match response_step(old(self).phase(), event) {
                Ok(p) => {
                    &&& final(self).phase() == p
                    &&& match event {
                        Some(ASGISendEvent::HTTPResponseStart(s)) => r == Ok::<ResponseAction, Error>(
                            ResponseAction::Start { status: s.status, headers: s.headers },
                        ),
                        Some(ASGISendEvent::HTTPResponseBody(b)) => r == Ok::<ResponseAction, Error>(
                            ResponseAction::Body { body: b.body, more_body: b.more_body },
                        ),
                        _ => false,
                    }
                },
                Err(f) => {
                    &&& final(self).phase() == old(self).phase()
                    &&& r is Err
                    &&& error_is(r->Err_0, f)
                },
            },
    {
        match event {
            None => Err(Error::unexpected_shutdown("application", quit_while_http_open_text())),
            Some(ASGISendEvent::AppReturned) => Err(
                Error::unexpected_shutdown("application", quit_while_http_open_text()),
            ),
            Some(ASGISendEvent::Error(m)) => Err(Error::ApplicationError(m)),
            Some(ASGISendEvent::HTTPResponseStart(s)) => {
                if self.phase != ResponsePhase::Init {
                    Err(Error::InvalidStateChange { received: SendEventKind::HTTPResponseStart })
                } else if !status_code_accepted(s.status) {
                    Err(Error::InvalidStatusCode(s.status))
                } else {
                    self.phase = ResponsePhase::Streaming;
                    Ok(ResponseAction::Start { status: s.status, headers: s.headers })
                }
            },
            Some(ASGISendEvent::HTTPResponseBody(b)) => {
                if self.phase != ResponsePhase::Streaming {
                    Err(Error::InvalidStateChange { received: SendEventKind::HTTPResponseBody })
                } else {
                    if !b.more_body {
                        self.phase = ResponsePhase::Done;
                    }
                    Ok(ResponseAction::Body { body: b.body, more_body: b.more_body })
                }
            },
            Some(other) => Err(Error::unexpected_asgi_message(Some(other))),
        }
    }
}

/// Whether `log` is what the body forwarder hands the application: `http.request` events
/// only, each with `more_body` set but the last once the body is over, and at least one
/// once it is over.
pub open spec fn request_events_well_formed(log: Seq<ASGIReceiveEvent>, finished: bool) -> bool {
    &&& forall|i: int| 0 <= i < log.len() ==> (#[trigger] log[i]) is HTTPRequest
    &&& forall|i: int|
        0 <= i < log.len() ==> ((#[trigger] log[i])->HTTPRequest_0.more_body <==> !(finished && i
            == log.len() - 1))
    &&& finished ==> log.len() >= 1
}

/// The bytes that the `http.request` events of `log` carry, in order.
pub open spec fn request_body_of(log: Seq<ASGIReceiveEvent>) -> Seq<u8>
    decreases log.len(),
{
    if log.len() == 0 {
        Seq::empty()
    } else {
        request_body_of(log.drop_last()) + log.last()->HTTPRequest_0.body@
    }
}

proof fn lemma_request_body_push(log: Seq<ASGIReceiveEvent>, e: ASGIReceiveEvent)
    ensures
        request_body_of(log.push(e)) == request_body_of(log) + e->HTTPRequest_0.body@,
{
    assert(log.push(e).drop_last() =~= log);
}

/// The request side of the HTTP coordinator: turns the request body, as it is read,
/// into `http.request` events.
pub struct RequestBodyForwarder {
    finished: bool,
    sent: Ghost<Seq<ASGIReceiveEvent>>,
    read: Ghost<Seq<u8>>,
}

impl RequestBodyForwarder {
    pub fn new() -> (r: Self)
        ensures
            !r.finished(),
            r.sent().len() == 0,
            r.body_read().len() == 0,
            r.wf(),
    {
        RequestBodyForwarder { finished: false, sent: Ghost(Seq::empty()), read: Ghost(Seq::empty()) }
    }

    /// The body is over: its last event went out.
    pub closed spec fn finished(&self) -> bool {
        self.finished
    }

    /// Every event handed out so far, oldest first.
    pub closed spec fn sent(&self) -> Seq<ASGIReceiveEvent> {
        self.sent@
    }

    /// Every byte of the body read so far, in order.
    pub closed spec fn body_read(&self) -> Seq<u8> {
        self.read@
    }

    /// The events handed out are well formed, and together they carry exactly the body
    /// read so far, however it was cut into chunks.
    pub open spec fn wf(&self) -> bool {
        &&& request_events_well_formed(self.sent(), self.finished())
        &&& request_body_of(self.sent()) == self.body_read()
    }

    #[verifier::when_used_as_spec(finished)]
    pub fn is_finished(&self) -> (r: bool)
        ensures
            r == self.finished(),
    {
        self.finished
    }

    /// A chunk of the body was read; more may follow. Nothing is handed out once the
    /// body is over.
    pub fn on_chunk(&mut self, data: Vec<u8>) -> (r: Option<ASGIReceiveEvent>)
        requires
            old(self).wf(),
        ensures
            final(self).wf(),
            final(self).finished() == old(self).finished(),
            old(self).finished() ==> r is None && final(self).sent() == old(self).sent()
                && final(self).body_read() == old(self).body_read(),
            !old(self).finished() ==> {
                &&& r is Some
                &&& r->Some_0 is HTTPRequest
                &&& r->Some_0->HTTPRequest_0.body == data
                &&& r->Some_0->HTTPRequest_0.more_body
                &&& final(self).sent() == old(self).sent().push(r->Some_0)
                &&& final(self).body_read() == old(self).body_read() + data@
            },
    {
        if self.finished {
            return None;
        }
        let ghost d = data@;
        let e = ASGIReceiveEvent::new_http_request(data, true);
        let ghost g = e;
        proof {
            lemma_request_body_push(self.sent@, g);
        }
        self.sent = Ghost(self.sent@.push(g));
        self.read = Ghost(self.read@ + d);
        Some(e)
    }

    /// The body is over: hands out its last event, which carries no data.
    pub fn on_end(&mut self) -> (r: Option<ASGIReceiveEvent>)
        requires
            old(self).wf(),
        ensures
            final(self).wf(),
            final(self).finished(),
            final(self).body_read() == old(self).body_read(),
            old(self).finished() ==> r is None && final(self).sent() == old(self).sent(),
            !old(self).finished() ==> {
                &&& r is Some
                &&& r->Some_0 is HTTPRequest
                &&& r->Some_0->HTTPRequest_0.body@.len() == 0
                &&& !r->Some_0->HTTPRequest_0.more_body
                &&& final(self).sent() == old(self).sent().push(r->Some_0)
            },
    {
        if self.finished {
            return None;
        }
        let e = ASGIReceiveEvent::new_http_request(Vec::new(), false);
        let ghost g = e;
        proof {
            lemma_request_body_push(self.sent@, g);
            assert(self.read@ + g->HTTPRequest_0.body@ =~= self.read@);
        }
        self.sent = Ghost(self.sent@.push(g));
        self.finished = true;
        Some(e)
    }

    /// Reading the body failed: the body ends as `on_end` ends it, and the error to
    /// report is a transport error with `message`.
    pub fn on_read_error(&mut self, message: String) -> (r: (Option<ASGIReceiveEvent>, Error))
        requires
            old(self).wf(),
        ensures
            final(self).wf(),
            final(self).finished(),
            final(self).body_read() == old(self).body_read(),
            r.1 == Error::Transport(message),
            old(self).finished() ==> r.0 is None && final(self).sent() == old(self).sent(),
            !old(self).finished() ==> {
                &&& r.0 is Some
                &&& r.0->Some_0 is HTTPRequest
                &&& r.0->Some_0->HTTPRequest_0.body@.len() == 0
                &&& !r.0->Some_0->HTTPRequest_0.more_body
                &&& final(self).sent() == old(self).sent().push(r.0->Some_0)
            },
    {
        let e = self.on_end();
        (e, Error::Transport(message))
    }
}

/// Whether `log` is everything one request hands its application once the coordinator
/// is done: its `http.request` events, the last without `more_body`, then one
/// `http.disconnect`.
pub open spec fn request_cycle_complete(log: Seq<ASGIReceiveEvent>) -> bool {
    &&& log.len() >= 2
    &&& log.last() is HTTPDisconnect
    &&& request_events_well_formed(log.drop_last(), true)
}

/// The HTTP coordinator of one request: the body forwarder, the response builder, and
/// the teardown that runs on every way out.
pub struct HttpCycle {
    pub forwarder: RequestBodyForwarder,
    pub response: ResponseBuilder,
    pub closed: bool,
}

impl HttpCycle {
    pub fn new() -> (r: Self)
        ensures
            r.wf(),
            !r.closed,
            r.forwarder.sent().len() == 0,
            !r.forwarder.finished(),
            r.response.phase() == ResponsePhase::Init,
    {
        HttpCycle { forwarder: RequestBodyForwarder::new(), response: ResponseBuilder::new(), closed: false }
    }

    pub open spec fn wf(&self) -> bool {
        &&& self.forwarder.wf()
        &&& self.closed ==> self.forwarder.finished()
    }

    /// Closes the cycle: returns what the application must still be handed, in order.
    /// That is the body's last event if the body was not over, then `http.disconnect`.
    /// A closed cycle hands out nothing more.
    pub fn teardown(&mut self) -> (r: Vec<ASGIReceiveEvent>)
        requires
            old(self).wf(),
        ensures
            final(self).wf(),
            final(self).closed,
            final(self).forwarder.finished(),
            old(self).closed ==> r@.len() == 0 && final(self).forwarder.sent() == old(
                self,
            ).forwarder.sent(),
            !old(self).closed ==> {
                &&& r@.len() >= 1
                &&& r@.last() is HTTPDisconnect
                &&& old(self).forwarder.finished() ==> r@.len() == 1
                &&& !old(self).forwarder.finished() ==> {
                    &&& r@.len() == 2
                    &&& r@[0] is HTTPRequest
                    &&& r@[0]->HTTPRequest_0.body@.len() == 0
                    &&& !r@[0]->HTTPRequest_0.more_body
                }
                &&& old(self).forwarder.sent() + r@.drop_last() == final(self).forwarder.sent()
                &&& request_cycle_complete(old(self).forwarder.sent() + r@)
                &&& request_body_of(final(self).forwarder.sent()) == old(self).forwarder.body_read()
            },
    {
        let mut out: Vec<ASGIReceiveEvent> = Vec::new();
        if self.closed {
            return out;
        }
        let ghost before = self.forwarder.sent();
        let last = self.forwarder.on_end();
        match last {
            Some(e) => out.push(e),
            None => {},
        }
        out.push(ASGIReceiveEvent::new_http_disconnect());
        self.closed = true;
        proof {
            assert(out@.drop_last() =~= (if before.len() < self.forwarder.sent().len() {
                seq![self.forwarder.sent().last()]
            } else {
                Seq::empty()
            }));
            assert(before + out@.drop_last() =~= self.forwarder.sent());
            assert((before + out@).drop_last() =~= self.forwarder.sent());
        }
        out
    }
}

fn quit_while_http_open_text() -> (r: String)
    ensures
        r@ == crate::error::quit_while_http_open(),
{
    "application quit while open http connection".to_owned()
}

} // verus!
