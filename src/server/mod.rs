mod config;
mod connection_info;
mod headers;
mod service;

pub use config::{ServerConfig, DEFAULT_MAX_SIZE, DEFAULT_PORT};
pub use connection_info::ConnectionInfo;
pub use headers::{
    all_digits, ascii_lower, bytes_eq_ignore_ascii_case, content_length, decimal_value, eq_ignore_ascii_case, find_header,
    first_named, get_content_length, is_ascii_digit, parse_usize, parsed_usize, without_plus,
};
pub use service::{
    asks_websocket, body_rejected, concurrency_admits, is_chunked, is_chunked_request, should_upgrade_to_websocket,
    ASGIService, ContentLengthLimit, RequestHead,
};
