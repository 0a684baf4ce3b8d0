mod events;
mod handler;
mod response;
mod scope;

pub use events::{HTTPDisconnectEvent, HTTPRequestEvent, HTTPResonseBodyEvent, HTTPResponseStartEvent};
pub use handler::{
    lemma_last_body_twice, lemma_single_start, lemma_start_status, request_body_of, request_cycle_complete, request_events_well_formed, response_step, valid_status, HttpCycle, RequestBodyForwarder,
    ResponseAction, ResponseBuilder, ResponsePhase,
};
pub use response::{collect_response, collected, lemma_echo, lemma_response_shape, response_of, ResponseData};
pub use scope::HTTPScope;
