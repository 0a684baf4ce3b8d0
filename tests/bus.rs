use aras_core::{
    app_exit_event, ASGIReceiveEvent, ASGISendEvent, Error, EventBus, Offer, Take, BUS_CAPACITY,
};

#[test]
fn server_done_twice_is_server_done_once() {
    let mut once = EventBus::new(4);
    let mut twice = EventBus::new(4);
    once.send_to(ASGIReceiveEvent::new_http_disconnect());
    twice.send_to(ASGIReceiveEvent::new_http_disconnect());
    once.server_done();
    twice.server_done();
    twice.server_done();
    assert_eq!(once.is_server_done(), twice.is_server_done());
    assert!(matches!(once.app_receive(), Take::Event(_)));
    assert!(matches!(twice.app_receive(), Take::Event(_)));
    assert!(matches!(once.app_receive(), Take::Ended));
    assert!(matches!(twice.app_receive(), Take::Ended));
}

#[test]
fn send_after_server_done_is_disconnected_client() {
    let mut bus = EventBus::new(BUS_CAPACITY);
    bus.server_done();
    assert!(matches!(bus.app_send(ASGISendEvent::new_shutdown_complete()), Offer::Disconnected(_)));
    assert!(matches!(bus.send_to(ASGIReceiveEvent::new_lifespan_startup()), Offer::Disconnected(_)));
    let e = Error::disconnected_client();
    assert_eq!(e.message(), "Disconnected client");
}

#[test]
fn each_direction_is_fifo_and_bounded() {
    let mut bus = EventBus::new(2);
    assert!(matches!(bus.send_to(ASGIReceiveEvent::new_http_request(b"1".to_vec(), true)), Offer::Queued));
    assert!(matches!(bus.send_to(ASGIReceiveEvent::new_http_request(b"2".to_vec(), false)), Offer::Queued));
    assert!(matches!(bus.send_to(ASGIReceiveEvent::new_http_disconnect()), Offer::Full(_)));
    match bus.app_receive() {
        Take::Event(ASGIReceiveEvent::HTTPRequest(r)) => assert_eq!(r.body, b"1".to_vec()),
        _ => panic!("expected the first event"),
    }
    assert!(matches!(bus.send_to(ASGIReceiveEvent::new_http_disconnect()), Offer::Queued));

    assert!(matches!(bus.receive_from(), Take::Pending));
    bus.app_send(ASGISendEvent::new_http_response_start(200, Vec::new()));
    bus.app_send(ASGISendEvent::new_http_response_body(Vec::new(), false));
    assert!(matches!(bus.app_send(ASGISendEvent::new_app_stopped()), Offer::Full(_)));
    assert!(matches!(bus.receive_from(), Take::Event(ASGISendEvent::HTTPResponseStart(_))));
    assert!(matches!(bus.receive_from(), Take::Event(ASGISendEvent::HTTPResponseBody(_))));
    bus.app_finished();
    assert!(matches!(bus.receive_from(), Take::Ended));
}

#[test]
fn exit_sentinels() {
    assert!(matches!(app_exit_event(&Err("boom".to_string()), false), Some(ASGISendEvent::Error(m)) if m == "boom"));
    assert!(matches!(app_exit_event(&Err("boom".to_string()), true), Some(ASGISendEvent::Error(_))));
    assert!(matches!(app_exit_event(&Ok(()), false), Some(ASGISendEvent::AppReturned)));
    assert!(app_exit_event(&Ok(()), true).is_none());
}

#[test]
fn event_names() {
    let e = ASGIReceiveEvent::new_websocket_disconnect(1005);
    assert!(matches!(e, ASGIReceiveEvent::WebsocketDisconnect(ref d) if d.type_ == "websocket.disconnect"));
    let e = ASGISendEvent::new_http_response_body(b"a".to_vec(), true);
    assert!(matches!(e, ASGISendEvent::HTTPResponseBody(ref b) if b.type_ == "http.response.body" && b.more_body));
    assert_eq!(ASGISendEvent::new_startup_complete().kind().name(), "lifespan.startup.complete");
}
