use aras_core::{
    handshake_response, merge_responses, parse_subprotocols, split_comma_list, ASGIReceiveEvent, ASGISendEvent,
    ClientFrame, Error, Handshake, Inbound, ResponseData, SendEventKind, ServerFrame, WebsocketCloseEvent,
    WebsocketDisconnectEvent, WebsocketSession, WsPhase, NO_STATUS_RECEIVED,
};

fn connected() -> WebsocketSession {
    let mut session = WebsocketSession::new();
    assert!(matches!(session.connect(), Some(ASGIReceiveEvent::WebsocketConnect(_))));
    let accepted = session.on_handshake_event(Some(ASGISendEvent::new_websocket_accept(None, Vec::new())));
    assert!(matches!(accepted, Ok(Handshake::Accept(_))));
    session
}

#[test]
fn websocket_denied_answers_403_with_reason() {
    let mut session = WebsocketSession::new();
    session.connect();
    let close = ASGISendEvent::new_websocket_close(Some(1000), "no".to_string());
    match session.on_handshake_event(Some(close)) {
        Ok(Handshake::Deny(resp)) => {
            assert_eq!(resp.status, 403);
            assert_eq!(resp.body, b"no".to_vec());
            assert!(resp.headers.is_empty());
        }
        other => panic!("expected a refusal, got {:?}", other),
    }
    assert_eq!(session.current_phase(), WsPhase::Refused);
    // no upgrade: the session never reaches the connected loop
    assert!(session.finish().is_none());
}

#[test]
fn accept_without_subprotocol_omits_the_header() {
    let headers = vec![(b"x-extra".to_vec(), b"1".to_vec())];
    match handshake_response(Some(ASGISendEvent::new_websocket_accept(None, headers))) {
        Ok(Handshake::Accept(resp)) => {
            assert_eq!(resp.status, 101);
            assert_eq!(resp.headers, vec![(b"x-extra".to_vec(), b"1".to_vec())]);
            assert!(resp.headers.iter().all(|(k, _)| !k.eq_ignore_ascii_case(b"sec-websocket-protocol")));
        }
        other => panic!("expected an accept, got {:?}", other),
    }
}

#[test]
fn accept_forwards_a_subprotocol_the_client_did_not_offer() {
    let offered = parse_subprotocols(&vec![(b"sec-websocket-protocol".to_vec(), b"chat, superchat".to_vec())]);
    assert!(!offered.contains(&"graphql-ws".to_string()));
    let accept = ASGISendEvent::new_websocket_accept(Some("graphql-ws".to_string()), Vec::new());
    match handshake_response(Some(accept)) {
        Ok(Handshake::Accept(resp)) => {
            assert_eq!(resp.headers, vec![(b"sec-websocket-protocol".to_vec(), b"graphql-ws".to_vec())]);
        }
        other => panic!("expected an accept, got {:?}", other),
    }
}

#[test]
fn handshake_with_another_event_is_refused() {
    let err = handshake_response(Some(ASGISendEvent::new_http_response_start(200, Vec::new()))).unwrap_err();
    assert!(matches!(err, Error::UnexpectedASGIMessage { received: Some(SendEventKind::HTTPResponseStart), .. }));
    let err = handshake_response(None).unwrap_err();
    assert!(matches!(err, Error::UnexpectedASGIMessage { received: None, .. }));
}

#[test]
fn app_stopping_during_handshake_is_an_unexpected_shutdown() {
    let mut session = WebsocketSession::new();
    session.connect();
    let err = session.on_exit_during_handshake();
    assert_eq!(err.message(), "application shutdown unexpectedly. stopped during websocket handshake");
}

#[test]
fn connect_is_handed_out_once() {
    let mut session = WebsocketSession::new();
    assert!(session.connect().is_some());
    assert!(session.connect().is_none());
}

#[test]
fn frames_from_the_client_become_receive_events() {
    let mut session = connected();
    match session.on_client_frame(ClientFrame::Text("hi".to_string())) {
        Inbound::Deliver(ASGIReceiveEvent::WebsocketReceive(r)) => {
            assert_eq!(r.text, Some("hi".to_string()));
            assert_eq!(r.bytes, None);
        }
        other => panic!("unexpected {:?}", other),
    }
    match session.on_client_frame(ClientFrame::Binary(vec![1, 2, 3])) {
        Inbound::Deliver(ASGIReceiveEvent::WebsocketReceive(r)) => {
            assert_eq!(r.bytes, Some(vec![1, 2, 3]));
            assert_eq!(r.text, None);
        }
        other => panic!("unexpected {:?}", other),
    }
    assert!(matches!(session.on_client_frame(ClientFrame::Ping), Inbound::Ignore));
    assert!(matches!(session.on_client_frame(ClientFrame::Close), Inbound::Stop));
}

#[test]
fn events_from_the_application_become_frames() {
    let mut session = connected();
    let out = session.on_app_event(Some(ASGISendEvent::new_websocket_send(Some(vec![9]), Some("t".to_string()))));
    assert!(out.keep_open && out.error.is_none());
    assert_eq!(out.frames.len(), 2);
    assert!(matches!(&out.frames[0], ServerFrame::Text(t) if t == "t"));
    assert!(matches!(&out.frames[1], ServerFrame::Binary(b) if b == &vec![9]));

    let out = session.on_app_event(Some(ASGISendEvent::new_websocket_close(None, "bye".to_string())));
    assert!(!out.keep_open && out.error.is_none());
    assert!(matches!(&out.frames[0], ServerFrame::Close(p) if p == b"bye"));
}

#[test]
fn invalid_event_while_connected_closes_with_internal_error() {
    let mut session = connected();
    let out = session.on_app_event(Some(ASGISendEvent::new_http_response_body(Vec::new(), false)));
    assert!(!out.keep_open);
    assert!(matches!(&out.frames[0], ServerFrame::Close(p) if p == b"Internal server error"));
    assert!(matches!(out.error, Some(Error::UnexpectedASGIMessage { received: Some(SendEventKind::HTTPResponseBody), .. })));
}

#[test]
fn disconnect_is_handed_out_once_with_no_status_code() {
    let mut session = connected();
    match session.finish() {
        Some(ASGIReceiveEvent::WebsocketDisconnect(d)) => assert_eq!(d.code, 1005),
        other => panic!("unexpected {:?}", other),
    }
    assert!(session.finish().is_none());
    assert_eq!(session.current_phase(), WsPhase::Closed);
    assert_eq!(NO_STATUS_RECEIVED, 1005);
    assert_eq!(WebsocketDisconnectEvent::default().code, 1005);
}

#[test]
fn close_event_defaults_to_normal_closure() {
    assert_eq!(WebsocketCloseEvent::new(None, "x".to_string()).code, 1000);
    assert_eq!(WebsocketCloseEvent::new(Some(4000), "x".to_string()).code, 4000);
}

#[test]
fn subprotocols_are_split_and_trimmed() {
    let headers = vec![
        (b"Host".to_vec(), b"example".to_vec()),
        (b"Sec-WebSocket-Protocol".to_vec(), b" chat , super chat".to_vec()),
        (b"sec-websocket-protocol".to_vec(), b"v2".to_vec()),
    ];
    assert_eq!(parse_subprotocols(&headers), vec!["chat", "superchat", "v2"]);
    assert_eq!(split_comma_list(""), vec![""]);
    assert_eq!(split_comma_list("a,,b"), vec!["a", "", "b"]);
    assert_eq!(split_comma_list("a\u{3000}b"), vec!["ab"]);
    let invalid = vec![(b"sec-websocket-protocol".to_vec(), vec![0xff, 0xfe])];
    assert_eq!(parse_subprotocols(&invalid), vec![""]);
    assert!(parse_subprotocols(&Vec::new()).is_empty());
}

#[test]
fn merged_upgrade_response_keeps_both_header_lists() {
    let app = ResponseData::new(101, vec![(b"x-app".to_vec(), b"1".to_vec())], Vec::new());
    let merged = merge_responses(app, 101, vec![(b"upgrade".to_vec(), b"websocket".to_vec())]);
    assert_eq!(merged.status, 101);
    assert_eq!(
        merged.headers,
        vec![(b"upgrade".to_vec(), b"websocket".to_vec()), (b"x-app".to_vec(), b"1".to_vec())]
    );
}
