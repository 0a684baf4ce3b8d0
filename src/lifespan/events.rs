use vstd::prelude::*;

verus! {

/// Sent to the application when the process starts (`lifespan.startup`).
#[derive(Debug)]
pub struct LifespanStartup {
    pub type_: String,
}

impl LifespanStartup {
    pub fn new() -> (r: Self)
        ensures
            r.type_@ == "lifespan.startup"@,
    {
        LifespanStartup { type_: "lifespan.startup".to_owned() }
    }
}

/// The application finished its startup (`lifespan.startup.complete`).
#[derive(Debug)]
pub struct LifespanStartupComplete {
    pub type_: String,
}

impl LifespanStartupComplete {
    pub fn new() -> (r: Self)
        ensures
            r.type_@ == "lifespan.startup.complete"@,
    {
        LifespanStartupComplete { type_: "lifespan.startup.complete".to_owned() }
    }
}

/// The application could not start (`lifespan.startup.failed`).
#[derive(Debug)]
pub struct LifespanStartupFailed {
    pub type_: String,
    pub message: String,
}

impl LifespanStartupFailed {
    pub fn new(message: String) -> (r: Self)
        ensures
            r.type_@ == "lifespan.startup.failed"@,
            r.message == message,
    {
        LifespanStartupFailed { type_: "lifespan.startup.failed".to_owned(), message }
    }
}

/// Sent to the application when the process stops (`lifespan.shutdown`).
#[derive(Debug)]
pub struct LifespanShutdown {
    pub type_: String,
}

impl LifespanShutdown {
    pub fn new() -> (r: Self)
        ensures
            r.type_@ == "lifespan.shutdown"@,
    {
        LifespanShutdown { type_: "lifespan.shutdown".to_owned() }
    }
}

/// The application finished its shutdown (`lifespan.shutdown.complete`).
#[derive(Debug)]
pub struct LifespanShutdownComplete {
    pub type_: String,
}

impl LifespanShutdownComplete {
    pub fn new() -> (r: Self)
        ensures
            r.type_@ == "lifespan.shutdown.complete"@,
    {
        LifespanShutdownComplete { type_: "lifespan.shutdown.complete".to_owned() }
    }
}

/// The application could not shut down cleanly (`lifespan.shutdown.failed`).
#[derive(Debug)]
pub struct LifespanShutdownFailed {
    pub type_: String,
    pub message: String,
}

impl LifespanShutdownFailed {
    pub fn new(message: String) -> (r: Self)
        ensures
            r.type_@ == "lifespan.shutdown.failed"@,
            r.message == message,
    {
        LifespanShutdownFailed { type_: "lifespan.shutdown.failed".to_owned(), message }
    }
}

} // verus!
