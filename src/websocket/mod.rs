mod events;
mod handler;
mod scope;

pub use events::{
    WebsocketAcceptEvent, WebsocketCloseEvent, WebsocketConnectEvent, WebsocketDisconnectEvent, WebsocketReceiveEvent,
    WebsocketSendEvent, NORMAL_CLOSURE, NO_STATUS_RECEIVED,
};
pub use handler::{
    accept_headers, handshake_response, internal_error_payload, lemma_connect_once_first, lemma_disconnect_once_last,
    merge_responses, send_frames, session_log_well_formed, stopped_during_handshake, subprotocol_header, ClientFrame,
    Handshake, Inbound, Outbound, ServerFrame, WebsocketSession, WsPhase,
};
pub use scope::{
    comma_list, header_text, is_white_space, offered_subprotocols, parse_subprotocols, split_comma_list, WebsocketScope,
};
