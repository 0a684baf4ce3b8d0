use vstd::prelude::*;

use crate::asgispec::{ASGIReceiveEvent, ASGISendEvent};
use crate::error::{is_unexpected_message, Error};

verus! {

/// Where the lifespan protocol of the process stands.
#[derive(Debug, Clone, Copy, PartialEq, Eq, Structural)]
pub enum LifespanPhase {
    /// Nothing sent yet.
    Created,
    /// `lifespan.startup` sent; waiting for the application's answer.
    Starting,
    /// The application completed its startup: it will be told of the shutdown.
    Enabled,
    /// The application does not speak the lifespan protocol: it is served without it.
    Disabled,
    /// `lifespan.shutdown` sent; waiting for the application's answer.
    ShuttingDown,
    /// The protocol ended well.
    Stopped,
    /// The protocol ended in an error.
    Failed,
}

/// Where the application's answer to `lifespan.startup` takes the protocol. `None` stands
/// for the end of the application's events.
pub open spec fn startup_next(event: Option<ASGISendEvent>) -> LifespanPhase {
    match event {
        Some(ASGISendEvent::StartupComplete(_)) => LifespanPhase::Enabled,
        Some(ASGISendEvent::StartupFailed(_)) => LifespanPhase::Failed,
        Some(ASGISendEvent::Error(_)) => LifespanPhase::Failed,
        _ => LifespanPhase::Disabled,
    }
}

/// Where the application's answer to `lifespan.shutdown` takes the protocol.
pub open spec fn shutdown_next(event: Option<ASGISendEvent>) -> LifespanPhase {
    match event {
        Some(ASGISendEvent::ShutdownComplete(_)) => LifespanPhase::Stopped,
        _ => LifespanPhase::Failed,
    }
}

/// Whether the protocol has ended.
pub open spec fn is_terminal(phase: LifespanPhase) -> bool {
    phase == LifespanPhase::Stopped || phase == LifespanPhase::Failed
}

/// The reason given when the application stops while it is asked to start up.
pub open spec fn stopped_during_startup() -> Seq<char> {
    "stopped during startup"@
}

/// The reason given when the application stops while it is asked to shut down.
pub open spec fn stopped_during_shutdown() -> Seq<char> {
    "stopped during shutdown"@
}

/// The lifespan coordinator: runs once per process, drives the startup and shutdown
/// handshakes, and stands aside when the application does not speak the protocol.
pub struct LifespanHandler {
    phase: LifespanPhase,
}

impl LifespanHandler {
    pub fn new() -> (r: Self)
        ensures
            r.phase() == LifespanPhase::Created,
    {
        LifespanHandler { phase: LifespanPhase::Created }
    }

    pub closed spec fn phase(&self) -> LifespanPhase {
        self.phase
    }

    #[verifier::when_used_as_spec(phase)]
    pub fn current_phase(&self) -> (r: LifespanPhase)
        ensures
            r == self.phase(),
    {
        self.phase
    }

    /// Whether the application completed its startup, so that it takes part in the shutdown.
    pub fn is_enabled(&self) -> (r: bool)
        ensures
            r == (self.phase() == LifespanPhase::Enabled),
    {
        self.phase == LifespanPhase::Enabled
    }

    /// Starts the startup handshake: the event to send to the application. Only a new
    /// handler starts it.
    pub fn begin_startup(&mut self) -> (r: Option<ASGIReceiveEvent>)
        ensures
            old(self).phase() == LifespanPhase::Created ==> final(self).phase() == LifespanPhase::Starting
                && r is Some && r->Some_0 is Startup,
            old(self).phase() != LifespanPhase::Created ==> final(self).phase() == old(self).phase()
                && r is None,
    {
        if self.phase == LifespanPhase::Created {
            self.phase = LifespanPhase::Starting;
            Some(ASGIReceiveEvent::new_lifespan_startup())
        } else {
            None
        }
    }

    /// Takes the application's answer to `lifespan.startup`: `Ok(true)` when it completed,
    /// `Ok(false)` when it answered with an event of another protocol (it is then served
    /// without lifespan), an error when its startup failed or it raised.
    pub fn on_startup_event(&mut self, event: Option<ASGISendEvent>) -> (r: Result<bool, Error>)
        requires
            old(self).phase() == LifespanPhase::Starting,
        ensures
            final(self).phase() == startup_next(event),
            match event {
                Some(ASGISendEvent::StartupComplete(_)) => r == Ok::<bool, Error>(true),
                Some(ASGISendEvent::StartupFailed(f)) => r == Err::<bool, Error>(Error::Custom(f.message)),
                Some(ASGISendEvent::Error(m)) => r == Err::<bool, Error>(Error::Custom(m)),
                _ => r == Ok::<bool, Error>(false),
            },
    {
        match event {
            Some(ASGISendEvent::StartupComplete(_)) => {
                self.phase = LifespanPhase::Enabled;
                Ok(true)
            },
            Some(ASGISendEvent::StartupFailed(f)) => {
                self.phase = LifespanPhase::Failed;
                Err(Error::custom(f.message))
            },
            Some(ASGISendEvent::Error(m)) => {
                self.phase = LifespanPhase::Failed;
                Err(Error::custom(m))
            },
            _ => {
                self.phase = LifespanPhase::Disabled;
                Ok(false)
            },
        }
    }

    /// The application's task ended before it answered `lifespan.startup`: the error that
    /// ends the protocol. A task that raised gives its own error.
    pub fn on_exit_during_startup(&mut self, outcome: Result<(), Error>) -> (r: Error)
        requires
            old(self).phase() == LifespanPhase::Starting,
        ensures
            final(self).phase() == LifespanPhase::Failed,
            match outcome {
                Err(e) => r == e,
                Ok(_) => r is UnexpectedShutdown && r->src@ == "application"@ && r->reason@
                    == stopped_during_startup(),
            },
    {
        self.phase = LifespanPhase::Failed;
        match outcome {
            Err(e) => e,
            Ok(_) => Error::unexpected_shutdown("application", "stopped during startup".to_owned()),
        }
    }

    /// Starts the shutdown handshake: the event to send to the application, which is sent
    /// only when the application completed its startup. A handler that was disabled stops
    /// there, with nothing to send.
    pub fn begin_shutdown(&mut self) -> (r: Option<ASGIReceiveEvent>)
        ensures
            old(self).phase() == LifespanPhase::Enabled ==> final(self).phase()
                == LifespanPhase::ShuttingDown && r is Some && r->Some_0 is Shutdown,
            old(self).phase() == LifespanPhase::Disabled ==> final(self).phase() == LifespanPhase::Stopped
                && r is None,
            old(self).phase() != LifespanPhase::Enabled && old(self).phase() != LifespanPhase::Disabled
                ==> final(self).phase() == old(self).phase() && r is None,
    {
        if self.phase == LifespanPhase::Enabled {
            self.phase = LifespanPhase::ShuttingDown;
            Some(ASGIReceiveEvent::new_lifespan_shutdown())
        } else {
            if self.phase == LifespanPhase::Disabled {
                self.phase = LifespanPhase::Stopped;
            }
            None
        }
    }

    /// Takes the application's answer to `lifespan.shutdown`. Only `shutdown.complete`
    /// ends the protocol well.
    pub fn on_shutdown_event(&mut self, event: Option<ASGISendEvent>) -> (r: Result<(), Error>)
        requires
            old(self).phase() == LifespanPhase::ShuttingDown,
        ensures
            final(self).phase() == shutdown_next(event),
            match event {
                Some(ASGISendEvent::ShutdownComplete(_)) => r is Ok,
                Some(ASGISendEvent::ShutdownFailed(f)) => r == Err::<(), Error>(Error::Custom(f.message)),
                Some(ASGISendEvent::Error(m)) => r is Err && r->Err_0 is UnexpectedShutdown
                    && r->Err_0->src@ == "application"@ && r->Err_0->reason == m,
                Some(ASGISendEvent::AppReturned) | None => r is Err && r->Err_0 is UnexpectedShutdown
                    && r->Err_0->src@ == "application"@ && r->Err_0->reason@ == stopped_during_shutdown(),
                Some(other) => r is Err && is_unexpected_message(r->Err_0, Some(other)),
            },
    {
        match event {
            Some(ASGISendEvent::ShutdownComplete(_)) => {
                self.phase = LifespanPhase::Stopped;
                Ok(())
            },
            Some(ASGISendEvent::ShutdownFailed(f)) => {
                self.phase = LifespanPhase::Failed;
                Err(Error::custom(f.message))
            },
            Some(ASGISendEvent::Error(m)) => {
                self.phase = LifespanPhase::Failed;
                Err(Error::unexpected_shutdown("application", m))
            },
            Some(ASGISendEvent::AppReturned) | None => {
                self.phase = LifespanPhase::Failed;
                Err(Error::unexpected_shutdown("application", "stopped during shutdown".to_owned()))
            },
            Some(other) => {
                self.phase = LifespanPhase::Failed;
                Err(Error::unexpected_asgi_message(Some(other)))
            },
        }
    }
}

/// The outcome of the shutdown: the handshake's error if it failed, else the error of
/// the application's task if it raised, else success.
pub fn shutdown_outcome(handshake: Result<(), Error>, task: Result<(), Error>) -> (r: Result<(), Error>)
    ensures
        handshake is Err ==> r == handshake,
        handshake is Ok ==> r == task,
{
    match handshake {
        Err(e) => Err(e),
        Ok(_) => task,
    }
}

/// A lifespan that completed its startup is later told of the shutdown, and the one
/// answer it gives ends the protocol: well if and only if it is `shutdown.complete`.
pub proof fn lemma_enabled_lifespan_shuts_down(
    complete: crate::lifespan::LifespanStartupComplete,
    answer: Option<ASGISendEvent>,
)
    ensures
        startup_next(Some(ASGISendEvent::StartupComplete(complete))) == LifespanPhase::Enabled,
        is_terminal(shutdown_next(answer)),
        shutdown_next(answer) == LifespanPhase::Stopped <==> answer matches Some(
            ASGISendEvent::ShutdownComplete(_),
        ),
{
}

} // verus!
