mod application;
mod asgispec;
mod error;
mod http;
mod lifespan;
mod server;
mod websocket;

pub use crate::application::{
    after_server_done, app_exit_event, closed_with, lemma_close_delivers_once, lemma_server_done_idempotent,
    ApplicationFactory, BusView, EventBus, Offer, Take, BUS_CAPACITY,
};
pub use crate::asgispec::{
    event_rendering, headers_view, kind_of, render_event, ASGIReceiveEvent, ASGIScope, ASGISendEvent, Scope, SendEventKind, State, ASGI_SPEC_VERSION,
    ASGI_VERSION,
};
pub use crate::error::{error_is, is_unexpected_message, quit_while_http_open, Error, Failure, Result};
pub use crate::http::{
    collect_response, collected, lemma_echo, lemma_last_body_twice, lemma_response_shape, lemma_single_start,
    lemma_start_status,
    request_body_of, request_cycle_complete, request_events_well_formed, response_of, response_step, valid_status, HTTPDisconnectEvent,
    HTTPRequestEvent, HTTPResonseBodyEvent, HTTPResponseStartEvent, HTTPScope, HttpCycle, RequestBodyForwarder,
    ResponseAction, ResponseBuilder, ResponseData, ResponsePhase,
};
pub use crate::lifespan::{
    is_terminal, lemma_enabled_lifespan_shuts_down, shutdown_next, shutdown_outcome, startup_next,
    stopped_during_shutdown, stopped_during_startup, LifespanHandler, LifespanPhase, LifespanScope, LifespanShutdown,
    LifespanShutdownComplete, LifespanShutdownFailed, LifespanStartup, LifespanStartupComplete, LifespanStartupFailed,
};
pub use crate::server::{
    all_digits, ascii_lower, asks_websocket, body_rejected, bytes_eq_ignore_ascii_case, concurrency_admits,
    content_length, decimal_value, eq_ignore_ascii_case, find_header, first_named, get_content_length, is_ascii_digit,
    is_chunked, is_chunked_request, parse_usize, parsed_usize, should_upgrade_to_websocket, without_plus, ASGIService,
    ConnectionInfo, ContentLengthLimit, RequestHead, ServerConfig, DEFAULT_MAX_SIZE, DEFAULT_PORT,
};
pub use crate::websocket::{
    accept_headers, comma_list, handshake_response, header_text, internal_error_payload, is_white_space,
    lemma_connect_once_first, lemma_disconnect_once_last, merge_responses, offered_subprotocols, parse_subprotocols,
    send_frames, session_log_well_formed, split_comma_list, stopped_during_handshake, subprotocol_header, ClientFrame,
    Handshake, Inbound, Outbound, ServerFrame, WebsocketAcceptEvent, WebsocketCloseEvent, WebsocketConnectEvent,
    WebsocketDisconnectEvent, WebsocketReceiveEvent, WebsocketScope, WebsocketSendEvent, WebsocketSession, WsPhase,
    NORMAL_CLOSURE, NO_STATUS_RECEIVED,
};
