use gpt_anywhere::relay::{Relay, RelayError, RelayEvent, RelayStep, StreamRequest};

#[test]
fn send_failure_yields_error_and_no_lines() {
    // A request that cannot be sent reaches the relay as a read failure
    // before any chunk: it aborts with the transport error and has delivered
    // nothing.
    let mut relay = Relay::new();
    match relay.step(RelayEvent::ReadFailed("connection refused".to_string())) {
        RelayStep::Fail(e) => assert_eq!(e.message(), "connection refused"),
        _ => panic!("a failed send must abort the relay"),
    }
}

#[test]
fn chunks_are_framed_in_order_and_flushed_at_the_end() {
    let mut relay = Relay::new();
    match relay.step(RelayEvent::Chunk(b"data: hel".to_vec())) {
        RelayStep::Deliver(lines) => assert!(lines.is_empty()),
        _ => panic!("a chunk must yield deliveries"),
    }
    match relay.step(RelayEvent::Chunk(b"lo\nrest".to_vec())) {
        RelayStep::Deliver(lines) => assert_eq!(lines, vec!["data: hello".to_string()]),
        _ => panic!("a chunk must yield deliveries"),
    }
    match relay.step(RelayEvent::Closed) {
        RelayStep::Finish(line) => assert_eq!(line, Some("rest".to_string())),
        _ => panic!("the end of the body must finish the relay"),
    }
}

#[test]
fn body_ending_on_a_newline_leaves_no_remainder() {
    let mut relay = Relay::new();
    match relay.step(RelayEvent::Chunk(b"only line\n".to_vec())) {
        RelayStep::Deliver(lines) => assert_eq!(lines, vec!["only line".to_string()]),
        _ => panic!("a chunk must yield deliveries"),
    }
    match relay.step(RelayEvent::Closed) {
        RelayStep::Finish(line) => assert_eq!(line, None),
        _ => panic!("the end of the body must finish the relay"),
    }
}

#[test]
fn mid_stream_read_failure_aborts_with_the_description() {
    let mut relay = Relay::new();
    relay.step(RelayEvent::Chunk(b"kept: line\npartial".to_vec()));
    match relay.step(RelayEvent::ReadFailed("connection reset".to_string())) {
        RelayStep::Fail(RelayError::Transport(detail)) => {
            assert_eq!(detail, "connection reset");
        }
        _ => panic!("a read failure must abort the relay"),
    }
}

#[test]
fn refused_delivery_aborts() {
    let mut relay = Relay::new();
    relay.step(RelayEvent::Chunk(b"x\n".to_vec()));
    match relay.step(RelayEvent::DeliveryRefused) {
        RelayStep::Fail(e) => {
            assert!(matches!(e, RelayError::DeliveryFailed));
            assert_eq!(e.message(), "the window closed before the stream ended");
        }
        _ => panic!("a refused delivery must abort the relay"),
    }
}

#[test]
fn stream_request_holds_its_parts() {
    let req = StreamRequest {
        url: "http://127.0.0.1:9/v1/chat".to_string(),
        body: "{\"prompt\":\"hello\"}".to_string(),
        headers: vec![(
            "Content-Type".to_string(),
            "application/json".to_string(),
        )],
    };
    assert_eq!(req.url, "http://127.0.0.1:9/v1/chat");
    assert_eq!(req.body, "{\"prompt\":\"hello\"}");
    assert_eq!(req.headers.len(), 1);
    assert_eq!(req.headers[0].0, "Content-Type");
}
