mod events;
mod handler;
mod scope;

pub use events::{
    LifespanShutdown, LifespanShutdownComplete, LifespanShutdownFailed, LifespanStartup, LifespanStartupComplete,
    LifespanStartupFailed,
};
pub use handler::{
    is_terminal, lemma_enabled_lifespan_shuts_down, shutdown_next, shutdown_outcome, startup_next,
    stopped_during_shutdown, stopped_during_startup, LifespanHandler, LifespanPhase,
};
pub use scope::LifespanScope;
