use futures::sync::{mpsc, oneshot};
use futures::{Future, Stream};
use jsonrpc_client_http::channel::{CoreReceiver, Outcome, PendingRequest};
use jsonrpc_client_http::request::{HttpRequest, Method};
use jsonrpc_client_http::transport::{admitted, settle};
use jsonrpc_client_http::{ErrorKind, HttpTransport, TransportError};

fn transport() -> (HttpTransport, CoreReceiver) {
    let (request_tx, request_rx) = mpsc::unbounded();
    (HttpTransport::new(request_tx), request_rx)
}

fn next_pending(request_rx: CoreReceiver) -> (PendingRequest, CoreReceiver) {
    match request_rx.into_future().wait() {
        Ok((Some(pending), rest)) => (pending, rest),
        _ => panic!("no request on the queue"),
    }
}

#[test]
fn handle_keeps_the_uri_as_parsed() {
    let (transport, _rx) = transport();
    assert_eq!(transport.handle("http://localhost:8080/rpc").unwrap().uri(), "http://localhost:8080/rpc");
    assert_eq!(transport.handle("http://localhost:8080").unwrap().uri(), "http://localhost:8080/");
    assert_eq!(transport.handle("https://example.com?x=1").unwrap().uri(), "https://example.com/?x=1");
    assert_eq!(transport.handle("/rpc").unwrap().uri(), "/rpc");
    assert_eq!(transport.handle("localhost:8080").unwrap().uri(), "localhost:8080");
}

#[test]
fn handle_refuses_what_is_no_uri() {
    let (transport, _rx) = transport();
    for text in ["", "http://", "localhost/rpc", "http://[::1/rpc"] {
        match transport.handle(text) {
            Ok(_) => panic!("{:?} was taken for a URI", text),
            Err(e) => assert!(matches!(e.kind(), ErrorKind::Uri(_))),
        }
    }
}

#[test]
fn request_is_a_json_post_of_the_payload() {
    let (transport, _rx) = transport();
    let handle = transport.handle("http://localhost:8080/rpc").unwrap();
    let payload = b"{\"jsonrpc\":\"2.0\",\"method\":\"ping\",\"id\":1}".to_vec();
    let request = handle.create_request(payload.clone());
    assert_eq!(request.method, Method::Post);
    assert_eq!(request.uri, "http://localhost:8080/rpc");
    assert_eq!(request.content_type, "application/json");
    assert_eq!(request.content_length, 40);
    assert_eq!(request.body, payload);
}

#[test]
fn request_of_an_empty_payload_declares_no_length() {
    let request = HttpRequest::post_json(&"http://localhost/".to_string(), Vec::new());
    assert_eq!(request.method, Method::Post);
    assert_eq!(request.content_length, 0);
    assert!(request.body.is_empty());
}

#[test]
fn submission_pairs_the_request_with_the_given_slot() {
    let (transport, _rx) = transport();
    let handle = transport.handle("http://localhost:8080/rpc").unwrap();
    let (response_tx, response_rx) = oneshot::channel();
    let pending = handle.submission(vec![4, 5], response_tx);
    assert_eq!(pending.request.method, Method::Post);
    assert_eq!(pending.request.uri, "http://localhost:8080/rpc");
    assert_eq!(pending.request.content_length, 2);
    assert_eq!(pending.request.body, vec![4, 5]);
    assert!(pending.response_tx.send(Ok(vec![6])).is_ok());
    assert_eq!(settle(response_rx.wait().ok()).unwrap(), vec![6]);
}

#[test]
fn send_puts_the_request_on_the_queue() {
    let (transport, request_rx) = transport();
    let handle = transport.handle("http://localhost:8080/rpc").unwrap();
    let _response_rx = handle.send(vec![1, 2, 3]).unwrap();
    let (pending, _rest) = next_pending(request_rx);
    assert_eq!(pending.request.uri, "http://localhost:8080/rpc");
    assert_eq!(pending.request.content_length, 3);
    assert_eq!(pending.request.body, vec![1, 2, 3]);
}

#[test]
fn send_yields_what_is_written_into_its_slot() {
    let (transport, request_rx) = transport();
    let handle = transport.handle("http://localhost:8080/rpc").unwrap();
    let response_rx = handle.send(vec![1]).unwrap();
    let (pending, _rest) = next_pending(request_rx);
    assert!(pending.response_tx.send(Ok(vec![9, 8, 7])).is_ok());
    let outcome = settle(response_rx.wait().ok());
    assert_eq!(outcome.unwrap(), vec![9, 8, 7]);
}

#[test]
fn send_after_the_loop_is_gone_is_not_listening() {
    let (transport, request_rx) = transport();
    let handle = transport.handle("http://localhost:8080/rpc").unwrap();
    drop(request_rx);
    match handle.send(vec![1]) {
        Ok(_) => panic!("the request was taken"),
        Err(e) => match e.kind() {
            &ErrorKind::TokioCoreError(msg) => assert_eq!(msg, "Not listening for requests"),
            kind => panic!("invalid error kind response: {:?}", kind),
        },
    }
}

#[test]
fn dropped_slot_is_a_death_without_response() {
    let (transport, request_rx) = transport();
    let handle = transport.handle("http://localhost:8080/rpc").unwrap();
    let response_rx = handle.send(vec![1]).unwrap();
    let (pending, _rest) = next_pending(request_rx);
    drop(pending);
    match settle(response_rx.wait().ok()) {
        Ok(_) => panic!("a response came out of nowhere"),
        Err(e) => match e.kind() {
            &ErrorKind::TokioCoreError(msg) => assert_eq!(msg, "Died without returning response"),
            kind => panic!("invalid error kind response: {:?}", kind),
        },
    }
}

#[test]
fn settle_passes_errors_on_as_they_are() {
    let written: Outcome = Err(TransportError::http(404));
    match settle(Some(written)) {
        Err(e) => assert!(matches!(e.kind(), ErrorKind::HttpError(404))),
        Ok(_) => panic!("an error became a response"),
    }
}

#[test]
fn an_error_is_of_the_kind_it_was_made_with() {
    let error = TransportError::new(ErrorKind::Msg("out of luck".to_string()));
    match error.kind() {
        ErrorKind::Msg(text) => assert_eq!(text, "out of luck"),
        kind => panic!("invalid error kind response: {:?}", kind),
    }
    assert!(matches!(TransportError::client_builder().kind(), ErrorKind::ClientBuilderError));
    assert!(matches!(TransportError::unable_to_create().kind(), ErrorKind::TokioCoreError("Unable to create")));
    assert!(matches!(TransportError::http(500).kind(), ErrorKind::HttpError(500)));
    assert!(matches!(
        TransportError::network(hyper::Error::Closed).kind(),
        ErrorKind::Hyper(hyper::Error::Closed)
    ));
}

#[test]
fn admitted_hands_the_slot_on_or_fails() {
    let (_tx, rx) = oneshot::channel::<Outcome>();
    assert!(admitted(true, rx).is_ok());
    let (_tx, rx) = oneshot::channel::<Outcome>();
    match admitted(false, rx) {
        Ok(_) => panic!("a refused request was admitted"),
        Err(e) => assert!(matches!(e.kind(), ErrorKind::TokioCoreError("Not listening for requests"))),
    }
}

#[test]
fn handles_send_to_their_own_addresses_on_one_queue() {
    let (transport, request_rx) = transport();
    let one = transport.handle("http://localhost:8080/one").unwrap();
    let other = transport.handle("http://localhost:9090/other").unwrap();
    let _a = other.send(vec![2]).unwrap();
    let _b = one.send(vec![1]).unwrap();
    let (first, rest) = next_pending(request_rx);
    let (second, _rest) = next_pending(rest);
    assert_eq!(first.request.uri, "http://localhost:9090/other");
    assert_eq!(first.request.body, vec![2]);
    assert_eq!(second.request.uri, "http://localhost:8080/one");
    assert_eq!(second.request.body, vec![1]);
}

#[test]
fn a_clone_of_a_handle_sends_to_the_same_address() {
    let (transport, request_rx) = transport();
    let handle = transport.handle("http://localhost:8080/rpc").unwrap();
    let copy = handle.clone();
    drop(handle);
    drop(transport);
    assert_eq!(copy.uri(), "http://localhost:8080/rpc");
    let _response_rx = copy.send(vec![5]).unwrap();
    let (pending, _rest) = next_pending(request_rx);
    assert_eq!(pending.request.uri, "http://localhost:8080/rpc");
}

#[test]
fn the_queue_ends_when_every_producer_is_gone() {
    let (transport, request_rx) = transport();
    let handle = transport.handle("http://localhost:8080/rpc").unwrap();
    let copy = transport.clone();
    drop(transport);
    drop(handle);
    drop(copy);
    match request_rx.into_future().wait() {
        Ok((None, _)) => (),
        _ => panic!("the queue did not end"),
    }
}
