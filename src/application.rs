use std::collections::VecDeque;

use vstd::prelude::*;

use crate::asgispec::{ASGIReceiveEvent, ASGISendEvent};

verus! {

/// How many events each direction of a bus holds before its producer must wait.
pub const BUS_CAPACITY: usize = 64;

/// What became of an event offered to one direction of the bus.
#[derive(Debug)]
pub enum Offer<T> {
    /// The event is queued.
    Queued,
    /// The direction is at capacity: the producer waits and offers the event again.
    Full(T),
    /// The server tore the bus down: the event is refused for good.
    Disconnected(T),
}

/// What a consumer found on its direction of the bus.
#[derive(Debug)]
pub enum Take<T> {
    /// The oldest queued event.
    Event(T),
    /// Nothing is queued yet: the consumer waits and looks again.
    Pending,
    /// Nothing is queued and nothing more will come.
    Ended,
}

/// The state of a bus, as a reader of its contracts sees it.
pub struct BusView {
    /// Events from the server that the application has not received yet, oldest first.
    pub to_app: Seq<ASGIReceiveEvent>,
    /// Events from the application that the server has not received yet, oldest first.
    pub from_app: Seq<ASGISendEvent>,
    pub capacity: nat,
    /// The server tore the bus down (`server_done`).
    pub server_done: bool,
    /// The application's task is over: it will put nothing more on the bus.
    pub app_gone: bool,
}

/// The bus after the server tore it down.
pub open spec fn after_server_done(v: BusView) -> BusView {
    BusView { server_done: true, ..v }
}

/// The bus after the server handed the application `last` and tore the bus down.
pub open spec fn closed_with(v: BusView, last: ASGIReceiveEvent) -> BusView {
    after_server_done(BusView { to_app: v.to_app.push(last), ..v })
}

/// The duplex event bus between the server side of one invocation and the application.
///
/// Each direction is a bounded FIFO. Once the server is done, nothing more can be
/// queued in either direction, but what is already queued can still be taken.
pub struct EventBus {
    to_app: VecDeque<ASGIReceiveEvent>,
    from_app: VecDeque<ASGISendEvent>,
    capacity: usize,
    server_done: bool,
    app_gone: bool,
}

impl View for EventBus {
    type V = BusView;

    closed spec fn view(&self) -> BusView {
        BusView {
            to_app: self.to_app@,
            from_app: self.from_app@,
            capacity: self.capacity as nat,
            server_done: self.server_done,
            app_gone: self.app_gone,
        }
    }
}

impl EventBus {
    /// Each direction stays within the capacity; the one event that tears the bus down
    /// may take a place beyond it.
    pub open spec fn wf(&self) -> bool {
        &&& self@.capacity > 0
        &&& self@.capacity <= usize::MAX
        &&& self@.from_app.len() <= self@.capacity
        &&& self@.to_app.len() <= self@.capacity + 1
        &&& !self@.server_done ==> self@.to_app.len() <= self@.capacity
    }

    pub fn new(capacity: usize) -> (r: Self)
        requires
            capacity > 0,
        ensures
            r.wf(),
            r@.to_app.len() == 0,
            r@.from_app.len() == 0,
            r@.capacity == capacity,
            !r@.server_done,
            !r@.app_gone,
    {
        EventBus {
            to_app: VecDeque::new(),
            from_app: VecDeque::new(),
            capacity,
            server_done: false,
            app_gone: false,
        }
    }

    pub fn is_server_done(&self) -> (r: bool)
        ensures
            r == self@.server_done,
    {
        self.server_done
    }

    /// Offers an event from the server to the application.
    pub fn send_to(&mut self, event: ASGIReceiveEvent) -> (r: Offer<ASGIReceiveEvent>)
        requires
            old(self).wf(),
        ensures
            final(self).wf(),
            old(self)@.server_done ==> r == Offer::Disconnected(event) && final(self)@ == old(self)@,
            !old(self)@.server_done && old(self)@.to_app.len() >= old(self)@.capacity ==> r == Offer::Full(
                event,
            ) && final(self)@ == old(self)@,
            !old(self)@.server_done && old(self)@.to_app.len() < old(self)@.capacity ==> r is Queued
                && final(self)@ == (BusView { to_app: old(self)@.to_app.push(event), ..old(self)@ }),
    {
        if self.server_done {
            Offer::Disconnected(event)
        } else if self.to_app.len() >= self.capacity {
            Offer::Full(event)
        } else {
            self.to_app.push_back(event);
            Offer::Queued
        }
    }

    /// Takes the oldest event for the application.
    pub fn app_receive(&mut self) -> (r: Take<ASGIReceiveEvent>)
        requires
            old(self).wf(),
        ensures
            final(self).wf(),
            old(self)@.to_app.len() > 0 ==> r == Take::Event(old(self)@.to_app[0]) && final(self)@ == (
            BusView { to_app: old(self)@.to_app.drop_first(), ..old(self)@ }),
            old(self)@.to_app.len() == 0 ==> final(self)@ == old(self)@ && (if old(self)@.server_done {
                r is Ended
            } else {
                r is Pending
            }),
    {
        match self.to_app.pop_front() {
            Some(e) => Take::Event(e),
            None => {
                if self.server_done {
                    Take::Ended
                } else {
                    Take::Pending
                }
            },
        }
    }

    /// Offers an event from the application to the server.
    pub fn app_send(&mut self, event: ASGISendEvent) -> (r: Offer<ASGISendEvent>)
        requires
            old(self).wf(),
        ensures
            final(self).wf(),
            old(self)@.server_done ==> r == Offer::Disconnected(event) && final(self)@ == old(self)@,
            !old(self)@.server_done && old(self)@.from_app.len() >= old(self)@.capacity ==> r
                == Offer::Full(event) && final(self)@ == old(self)@,
            !old(self)@.server_done && old(self)@.from_app.len() < old(self)@.capacity ==> r is Queued
                && final(self)@ == (BusView { from_app: old(self)@.from_app.push(event), ..old(self)@ }),
    {
        if self.server_done {
            Offer::Disconnected(event)
        } else if self.from_app.len() >= self.capacity {
            Offer::Full(event)
        } else {
            self.from_app.push_back(event);
            Offer::Queued
        }
    }

    /// Takes the oldest event from the application.
    pub fn receive_from(&mut self) -> (r: Take<ASGISendEvent>)
        requires
            old(self).wf(),
        ensures
            final(self).wf(),
            old(self)@.from_app.len() > 0 ==> r == Take::Event(old(self)@.from_app[0]) && final(self)@
                == (BusView { from_app: old(self)@.from_app.drop_first(), ..old(self)@ }),
            old(self)@.from_app.len() == 0 ==> final(self)@ == old(self)@ && (if old(self)@.app_gone {
                r is Ended
            } else {
                r is Pending
            }),
    {
        match self.from_app.pop_front() {
            Some(e) => Take::Event(e),
            None => {
                if self.app_gone {
                    Take::Ended
                } else {
                    Take::Pending
                }
            },
        }
    }

    /// Records that the application's task is over.
    pub fn app_finished(&mut self)
        requires
            old(self).wf(),
        ensures
            final(self).wf(),
            final(self)@ == (BusView { app_gone: true, ..old(self)@ }),
    {
        self.app_gone = true;
    }

    /// Tears the bus down: from now on every event offered in either direction is refused.
    pub fn server_done(&mut self)
        requires
            old(self).wf(),
        ensures
            final(self).wf(),
            final(self)@ == after_server_done(old(self)@),
    {
        self.server_done = true;
    }

    /// Hands the application its last event, then tears the bus down.
    ///
    /// The event is queued even when the direction is at capacity, so that the server
    /// never waits on an application that may have stopped reading. On a bus that is
    /// already torn down nothing changes.
    pub fn close_with(&mut self, last: ASGIReceiveEvent) -> (queued: bool)
        requires
            old(self).wf(),
        ensures
            final(self).wf(),
            queued == !old(self)@.server_done,
            queued ==> final(self)@ == closed_with(old(self)@, last),
            !queued ==> final(self)@ == old(self)@,
    {
        if self.server_done {
            false
        } else {
            self.to_app.push_back(last);
            self.server_done = true;
            true
        }
    }
}

/// The event put on the bus when the application's task ends, if any: `Error` with the
/// message when it raised, `AppReturned` when it returned while the bus is still up.
pub fn app_exit_event(outcome: &std::result::Result<(), String>, server_done: bool) -> (r: Option<
    ASGISendEvent,
>)
    ensures
        match outcome {
            Err(m) => r == Some(ASGISendEvent::Error(*m)),
            Ok(_) => if server_done {
                r is None
            } else {
                r == Some(ASGISendEvent::AppReturned)
            },
        },
{
    match outcome {
        Err(m) => Some(ASGISendEvent::new_error(m.clone())),
        Ok(_) => {
            if server_done {
                None
            } else {
                Some(ASGISendEvent::new_app_stopped())
            }
        },
    }
}

/// Tearing a bus down twice leaves it as tearing it down once does.
pub proof fn lemma_server_done_idempotent(v: BusView)
    ensures
        after_server_done(after_server_done(v)) == after_server_done(v),
{
}

/// Once the server closes a bus with a last event, the application finds that event
/// after everything queued before it and nothing after it, and every event the
/// application offers from then on is refused as coming from a disconnected client.
pub proof fn lemma_close_delivers_once(v: BusView, last: ASGIReceiveEvent)
    requires
        !v.server_done,
    ensures
        closed_with(v, last).server_done,
        closed_with(v, last).to_app == v.to_app.push(last),
        closed_with(v, last).from_app == v.from_app,
{
}

/// Makes the buses for one application callable.
#[derive(Clone)]
pub struct ApplicationFactory<T> {
    asgi_callable: T,
}

impl<T> ApplicationFactory<T> {
    pub fn new(asgi_callable: T) -> (r: Self)
        ensures
            r.callable() == asgi_callable,
    {
        ApplicationFactory { asgi_callable }
    }

    pub closed spec fn callable(&self) -> T {
        self.asgi_callable
    }

    pub fn asgi_callable(&self) -> (r: &T)
        ensures
            *r == self.callable(),
    {
        &self.asgi_callable
    }

    /// A fresh, empty bus for one invocation of the callable.
    pub fn new_bus(&self) -> (r: EventBus)
        ensures
            r.wf(),
            r@.to_app.len() == 0,
            r@.from_app.len() == 0,
            r@.capacity == BUS_CAPACITY,
            !r@.server_done,
            !r@.app_gone,
    {
        EventBus::new(BUS_CAPACITY)
    }
}

} // verus!
