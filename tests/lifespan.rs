use aras_core::{
    app_exit_event, shutdown_outcome, ASGIReceiveEvent, ASGISendEvent, Error, EventBus, LifespanHandler, LifespanPhase,
    Offer, Take, BUS_CAPACITY,
};

/// The scripted answers of an application to the two lifespan events.
#[derive(Clone, Copy)]
enum Script {
    /// Completes startup and shutdown.
    Complete,
    /// Answers with an event of another protocol.
    Unsupported,
    /// Fails startup and shutdown with the message "test".
    Failed,
    /// Raises "Test app raises error" once it has received an event.
    RaisesAfterReceive,
    /// Raises "Immediate error" without reading anything.
    RaisesAtOnce,
    /// Returns without reading anything.
    ReturnsAtOnce,
}

/// Lets the scripted application take one step: read what is queued and answer.
/// Returns whether its task ended, and how.
fn app_step(bus: &mut EventBus, script: Script) -> Option<Result<(), String>> {
    match script {
        Script::RaisesAtOnce => return Some(Err("Immediate error".to_string())),
        Script::ReturnsAtOnce => return Some(Ok(())),
        _ => {}
    }
    let event = match bus.app_receive() {
        Take::Event(e) => e,
        _ => return None,
    };
    let answer = match (script, event) {
        (Script::RaisesAfterReceive, _) => return Some(Err("Test app raises error".to_string())),
        (Script::Complete, ASGIReceiveEvent::Startup(_)) => ASGISendEvent::new_startup_complete(),
        (Script::Complete, ASGIReceiveEvent::Shutdown(_)) => ASGISendEvent::new_shutdown_complete(),
        (Script::Failed, ASGIReceiveEvent::Startup(_)) => ASGISendEvent::new_startup_failed("test".to_string()),
        (Script::Failed, ASGIReceiveEvent::Shutdown(_)) => ASGISendEvent::new_shutdown_failed("test".to_string()),
        (Script::Unsupported, _) => ASGISendEvent::new_http_response_body(b"oops".to_vec(), false),
        _ => return Some(Err("Invalid message".to_string())),
    };
    assert!(matches!(bus.app_send(answer), Offer::Queued));
    None
}

/// The application's task ended: its sentinel goes on the bus.
fn app_exit(bus: &mut EventBus, outcome: &Result<(), String>) {
    if let Some(e) = app_exit_event(outcome, bus.is_server_done()) {
        bus.app_send(e);
    }
    bus.app_finished();
}

/// Runs the startup handshake against the scripted application, as the runtime does:
/// when the application's task ends, the handle puts its sentinel on the bus; an
/// `AppReturned` sentinel means the task ended before the application answered.
fn startup(handler: &mut LifespanHandler, bus: &mut EventBus, script: Script) -> Result<bool, Error> {
    let first = handler.begin_startup().unwrap();
    assert!(matches!(bus.send_to(first), Offer::Queued));
    let exit = app_step(bus, script);
    if let Some(outcome) = &exit {
        app_exit(bus, outcome);
    }
    match bus.receive_from() {
        Take::Event(ASGISendEvent::AppReturned) => {
            let outcome = exit.expect("the sentinel comes from the task's end");
            Err(handler.on_exit_during_startup(outcome.map_err(Error::Custom)))
        }
        Take::Event(e) => handler.on_startup_event(Some(e)),
        _ => panic!("the scripted application neither answered nor ended"),
    }
}

fn shutdown(handler: &mut LifespanHandler, bus: &mut EventBus, script: Script) -> Result<(), Error> {
    let Some(event) = handler.begin_shutdown() else {
        return Ok(());
    };
    assert!(matches!(bus.send_to(event), Offer::Queued));
    let exit = app_step(bus, script);
    let exit = exit.unwrap_or(Ok(()));
    let answer = match bus.receive_from() {
        Take::Event(e) => Some(e),
        _ => None,
    };
    let handshake = if answer.is_some() {
        handler.on_shutdown_event(answer)
    } else {
        app_exit(bus, &exit);
        let sentinel = match bus.receive_from() {
            Take::Event(e) => Some(e),
            _ => None,
        };
        handler.on_shutdown_event(sentinel)
    };
    shutdown_outcome(handshake, exit.map_err(Error::Custom))
}

fn started(script: Script, enabled: bool) -> (LifespanHandler, EventBus) {
    let mut handler = LifespanHandler::new();
    let mut bus = EventBus::new(BUS_CAPACITY);
    if enabled {
        let first = handler.begin_startup().unwrap();
        bus.send_to(first);
        let _ = bus.app_receive();
        handler.on_startup_event(Some(ASGISendEvent::new_startup_complete())).unwrap();
    } else {
        handler.begin_startup();
        handler.on_startup_event(Some(ASGISendEvent::new_http_response_body(Vec::new(), false))).unwrap();
    }
    let _ = script;
    (handler, bus)
}

#[test]
fn handler_test_lifespan_startup() {
    let mut handler = LifespanHandler::new();
    let mut bus = EventBus::new(BUS_CAPACITY);
    let result = startup(&mut handler, &mut bus, Script::Complete);
    assert!(result.is_ok());
    assert!(handler.is_enabled());
}

#[test]
fn test_lifespan_test_lifespan_startup() {
    let mut handler = LifespanHandler::new();
    let mut bus = EventBus::new(BUS_CAPACITY);
    let result = startup(&mut handler, &mut bus, Script::Complete);
    println!("{:?}", result);
    assert!(result.is_ok());
}

#[test]
fn test_lifespan_shutdown_ok_if_disabled() {
    let (mut handler, mut bus) = started(Script::Complete, false);
    let result = shutdown(&mut handler, &mut bus, Script::Complete);
    assert!(result.is_ok());
    assert_eq!(handler.current_phase(), LifespanPhase::Stopped);
}

#[test]
fn test_lifespan_shutdown() {
    let (mut handler, mut bus) = started(Script::Complete, true);
    let result = shutdown(&mut handler, &mut bus, Script::Complete);
    assert!(result.is_ok());
    assert_eq!(handler.current_phase(), LifespanPhase::Stopped);
}

#[test]
fn test_lifespan_disabled_if_protocol_unsupported() {
    let mut handler = LifespanHandler::new();
    let mut bus = EventBus::new(BUS_CAPACITY);
    let result = startup(&mut handler, &mut bus, Script::Unsupported);
    assert_eq!(result.unwrap(), false);
    assert!(handler.is_enabled() == false);
    // on shutdown, nothing is sent to the application
    assert!(handler.begin_shutdown().is_none());
    assert!(matches!(bus.app_receive(), Take::Pending));
}

#[test]
fn test_error_on_startup() {
    let mut handler = LifespanHandler::new();
    let mut bus = EventBus::new(BUS_CAPACITY);
    let outcome = app_step_then_exit(&mut handler, &mut bus, Script::RaisesAfterReceive);
    assert!(outcome.is_err_and(|e| e.message() == "Test app raises error"));
}

/// Startup against an application that raises: its task ends, the handle puts the
/// `Error` sentinel on the bus, and the coordinator reads it.
fn app_step_then_exit(handler: &mut LifespanHandler, bus: &mut EventBus, script: Script) -> Result<bool, Error> {
    let first = handler.begin_startup().unwrap();
    bus.send_to(first);
    let exit = app_step(bus, script).unwrap();
    app_exit(bus, &exit);
    match bus.receive_from() {
        Take::Event(e) => handler.on_startup_event(Some(e)),
        _ => handler.on_startup_event(None),
    }
}

#[test]
fn test_startup_fails() {
    let mut handler = LifespanHandler::new();
    let mut bus = EventBus::new(BUS_CAPACITY);
    let result = startup(&mut handler, &mut bus, Script::Failed);
    assert!(result.is_err_and(|e| e.message() == "test"));
    assert_eq!(handler.current_phase(), LifespanPhase::Failed);
}

#[test]
fn handler_test_app_fails_when_called() {
    let mut handler = LifespanHandler::new();
    let mut bus = EventBus::new(BUS_CAPACITY);
    let result = startup(&mut handler, &mut bus, Script::RaisesAtOnce);
    assert!(result.is_err_and(|e| e.message() == "Immediate error"));
}

#[test]
fn test_app_returns_early() {
    let mut handler = LifespanHandler::new();
    let mut bus = EventBus::new(BUS_CAPACITY);
    let result = startup(&mut handler, &mut bus, Script::ReturnsAtOnce);
    assert!(result.is_err_and(|e| e.message() == "application shutdown unexpectedly. stopped during startup"));
}

#[test]
fn app_returned_sentinel_during_startup_disables_lifespan() {
    let mut handler = LifespanHandler::new();
    handler.begin_startup();
    let result = handler.on_startup_event(Some(ASGISendEvent::new_app_stopped()));
    assert_eq!(result.unwrap(), false);
    assert_eq!(handler.current_phase(), LifespanPhase::Disabled);
}

#[test]
fn test_shutdown_fails() {
    let (mut handler, mut bus) = started(Script::Failed, true);
    let result = shutdown(&mut handler, &mut bus, Script::Failed);
    assert!(result.is_err_and(|e| e.message() == "test"));
}

#[test]
fn test_error_on_shutdown() {
    let (mut handler, mut bus) = started(Script::RaisesAfterReceive, true);
    let result = shutdown(&mut handler, &mut bus, Script::RaisesAfterReceive);
    assert!(result.is_err_and(|e| e.message() == "application shutdown unexpectedly. Test app raises error"));
}

#[test]
fn shutdown_answer_from_another_protocol_is_refused() {
    let (mut handler, _bus) = started(Script::Complete, true);
    assert!(matches!(handler.begin_shutdown(), Some(ASGIReceiveEvent::Shutdown(_))));
    let err = handler.on_shutdown_event(Some(ASGISendEvent::new_startup_complete())).unwrap_err();
    assert_eq!(
        err.message(),
        "Unexpected ASGI message received. Some(StartupComplete(LifespanStartupComplete { type_: \"lifespan.startup.complete\" }))"
    );
    assert_eq!(handler.current_phase(), LifespanPhase::Failed);
}

#[test]
fn app_returning_during_shutdown_is_an_unexpected_shutdown() {
    let (mut handler, _bus) = started(Script::Complete, true);
    handler.begin_shutdown();
    let err = handler.on_shutdown_event(Some(ASGISendEvent::new_app_stopped())).unwrap_err();
    assert_eq!(err.message(), "application shutdown unexpectedly. stopped during shutdown");
}

#[test]
fn startup_is_sent_once() {
    let mut handler = LifespanHandler::new();
    assert!(matches!(handler.begin_startup(), Some(ASGIReceiveEvent::Startup(ref s)) if s.type_ == "lifespan.startup"));
    assert!(handler.begin_startup().is_none());
    assert_eq!(handler.current_phase(), LifespanPhase::Starting);
}
