use futures::sync::oneshot;
use futures::Future;
use jsonrpc_client_http::channel::{Outcome, PendingRequest, ResponseReceiver};
use jsonrpc_client_http::dispatch::{Directive, Dispatcher, Exchange, Progress, STATUS_OK};
use jsonrpc_client_http::request::HttpRequest;
use jsonrpc_client_http::transport::settle;
use jsonrpc_client_http::ErrorKind;

fn pending(uri: &str, payload: &[u8]) -> (PendingRequest, ResponseReceiver) {
    let (response_tx, response_rx) = oneshot::channel();
    let request = HttpRequest::post_json(&uri.to_string(), payload.to_vec());
    (PendingRequest { request, response_tx }, response_rx)
}

fn result_of(response_rx: ResponseReceiver) -> Outcome {
    settle(response_rx.wait().ok())
}

#[test]
fn status_200_with_a_body_yields_the_body() {
    let mut dispatcher = Dispatcher::new();
    let (request, response_rx) = pending("http://localhost/", b"ping");
    let (ticket, issued) = dispatcher.accept(request).unwrap();
    assert_eq!(ticket, 0);
    assert_eq!(issued.body, b"ping".to_vec());
    assert_eq!(dispatcher.on_event(ticket, Exchange::Head(200)), Directive::ReadBody);
    assert_eq!(
        dispatcher.on_event(ticket, Exchange::Body(b"pong".to_vec())),
        Directive::Settled { delivered: true }
    );
    assert_eq!(result_of(response_rx).unwrap(), b"pong".to_vec());
}

#[test]
fn status_404_yields_an_http_error_with_the_code() {
    let mut dispatcher = Dispatcher::new();
    let (request, response_rx) = pending("http://localhost/", b"ping");
    let (ticket, _) = dispatcher.accept(request).unwrap();
    assert_eq!(
        dispatcher.on_event(ticket, Exchange::Head(404)),
        Directive::Settled { delivered: true }
    );
    match result_of(response_rx) {
        Ok(_) => panic!("a 404 became a response"),
        Err(e) => match e.kind() {
            &ErrorKind::HttpError(code) => assert_eq!(code, 404),
            kind => panic!("invalid error kind response: {:?}", kind),
        },
    }
}

#[test]
fn every_other_status_is_an_http_error() {
    assert_eq!(STATUS_OK, 200);
    for status in [0u16, 100, 199, 201, 204, 301, 500, 65535] {
        let mut dispatcher = Dispatcher::new();
        let (request, response_rx) = pending("http://localhost/", b"");
        let (ticket, _) = dispatcher.accept(request).unwrap();
        assert_eq!(
            dispatcher.on_event(ticket, Exchange::Head(status)),
            Directive::Settled { delivered: true }
        );
        match result_of(response_rx) {
            Err(e) => assert!(matches!(e.kind(), &ErrorKind::HttpError(code) if code == status)),
            Ok(_) => panic!("status {} became a response", status),
        }
    }
}

#[test]
fn network_failure_is_passed_on_with_its_cause() {
    let mut dispatcher = Dispatcher::new();
    let (request, response_rx) = pending("http://localhost/", b"ping");
    let (ticket, _) = dispatcher.accept(request).unwrap();
    assert_eq!(
        dispatcher.on_event(ticket, Exchange::Failed(hyper::Error::Timeout)),
        Directive::Settled { delivered: true }
    );
    match result_of(response_rx) {
        Err(e) => assert!(matches!(e.kind(), ErrorKind::Hyper(hyper::Error::Timeout))),
        Ok(_) => panic!("a failure became a response"),
    }
}

#[test]
fn failure_while_reading_the_body_is_passed_on() {
    let mut dispatcher = Dispatcher::new();
    let (request, response_rx) = pending("http://localhost/", b"ping");
    let (ticket, _) = dispatcher.accept(request).unwrap();
    assert_eq!(dispatcher.on_event(ticket, Exchange::Head(200)), Directive::ReadBody);
    assert_eq!(
        dispatcher.on_event(ticket, Exchange::Failed(hyper::Error::Incomplete)),
        Directive::Settled { delivered: true }
    );
    match result_of(response_rx) {
        Err(e) => assert!(matches!(e.kind(), ErrorKind::Hyper(hyper::Error::Incomplete))),
        Ok(_) => panic!("a failure became a response"),
    }
}

#[test]
fn abandoned_caller_is_told_apart() {
    let mut dispatcher = Dispatcher::new();
    let (request, response_rx) = pending("http://localhost/", b"ping");
    let (ticket, _) = dispatcher.accept(request).unwrap();
    drop(response_rx);
    assert_eq!(dispatcher.on_event(ticket, Exchange::Head(200)), Directive::ReadBody);
    assert_eq!(
        dispatcher.on_event(ticket, Exchange::Body(vec![1])),
        Directive::Settled { delivered: false }
    );
    assert!(!dispatcher.is_finished());
}

#[test]
fn a_slot_is_settled_once() {
    let mut dispatcher = Dispatcher::new();
    let (request, response_rx) = pending("http://localhost/", b"ping");
    let (ticket, _) = dispatcher.accept(request).unwrap();
    assert_eq!(dispatcher.on_event(ticket, Exchange::Head(200)), Directive::ReadBody);
    assert_eq!(
        dispatcher.on_event(ticket, Exchange::Body(vec![1])),
        Directive::Settled { delivered: true }
    );
    assert_eq!(dispatcher.on_event(ticket, Exchange::Body(vec![2])), Directive::Ignored);
    assert_eq!(dispatcher.on_event(ticket, Exchange::Head(500)), Directive::Ignored);
    assert_eq!(
        dispatcher.on_event(ticket, Exchange::Failed(hyper::Error::Closed)),
        Directive::Ignored
    );
    assert_eq!(result_of(response_rx).unwrap(), vec![1]);
}

#[test]
fn events_out_of_turn_change_nothing() {
    let mut dispatcher = Dispatcher::new();
    let (request, response_rx) = pending("http://localhost/", b"ping");
    let (ticket, _) = dispatcher.accept(request).unwrap();
    assert_eq!(dispatcher.on_event(ticket, Exchange::Body(vec![1])), Directive::Ignored);
    assert_eq!(dispatcher.on_event(ticket + 1, Exchange::Head(200)), Directive::Ignored);
    assert_eq!(dispatcher.on_event(ticket, Exchange::Head(200)), Directive::ReadBody);
    assert_eq!(dispatcher.on_event(ticket, Exchange::Head(200)), Directive::Ignored);
    assert_eq!(dispatcher.on_event(ticket, Exchange::Head(404)), Directive::Ignored);
    assert_eq!(
        dispatcher.on_event(ticket, Exchange::Body(vec![2])),
        Directive::Settled { delivered: true }
    );
    assert_eq!(result_of(response_rx).unwrap(), vec![2]);
}

#[test]
fn exchanges_finish_in_any_order_and_reach_their_own_callers() {
    let mut dispatcher = Dispatcher::new();
    let (first, first_rx) = pending("http://localhost/a", b"a");
    let (second, second_rx) = pending("http://localhost/b", b"b");
    let (third, third_rx) = pending("http://localhost/c", b"c");
    let (t1, r1) = dispatcher.accept(first).unwrap();
    let (t2, r2) = dispatcher.accept(second).unwrap();
    let (t3, r3) = dispatcher.accept(third).unwrap();
    assert_eq!((t1, t2, t3), (0, 1, 2));
    assert_eq!((r1.uri.as_str(), r2.uri.as_str(), r3.uri.as_str()),
        ("http://localhost/a", "http://localhost/b", "http://localhost/c"));
    assert_eq!(dispatcher.on_event(t3, Exchange::Head(200)), Directive::ReadBody);
    assert_eq!(dispatcher.on_event(t1, Exchange::Head(200)), Directive::ReadBody);
    assert_eq!(dispatcher.on_event(t2, Exchange::Head(503)), Directive::Settled { delivered: true });
    assert_eq!(
        dispatcher.on_event(t3, Exchange::Body(b"C".to_vec())),
        Directive::Settled { delivered: true }
    );
    assert_eq!(
        dispatcher.on_event(t1, Exchange::Body(b"A".to_vec())),
        Directive::Settled { delivered: true }
    );
    assert_eq!(result_of(first_rx).unwrap(), b"A".to_vec());
    assert!(matches!(result_of(second_rx).err().unwrap().kind(), ErrorKind::HttpError(503)));
    assert_eq!(result_of(third_rx).unwrap(), b"C".to_vec());
}

#[test]
fn progress_hands_out_the_slot_with_the_outcome() {
    let mut dispatcher = Dispatcher::new();
    let (request, response_rx) = pending("http://localhost/", b"ping");
    let (ticket, _) = dispatcher.accept(request).unwrap();
    assert!(matches!(dispatcher.progress(ticket, Exchange::Head(200)), Progress::ReadBody));
    match dispatcher.progress(ticket, Exchange::Body(vec![4, 2])) {
        Progress::Deliver { slot, outcome } => {
            assert_eq!(outcome.as_ref().unwrap(), &vec![4, 2]);
            assert!(slot.send(outcome).is_ok());
        }
        _ => panic!("the body did not settle the request"),
    }
    assert!(matches!(dispatcher.progress(ticket, Exchange::Head(200)), Progress::Ignored));
    assert_eq!(result_of(response_rx).unwrap(), vec![4, 2]);
}

#[test]
fn a_closed_dispatcher_takes_no_request_and_finishes_when_drained() {
    let mut dispatcher = Dispatcher::new();
    assert!(!dispatcher.is_finished());
    let (request, response_rx) = pending("http://localhost/", b"ping");
    let (ticket, _) = dispatcher.accept(request).unwrap();
    dispatcher.close();
    assert!(!dispatcher.is_finished());
    let (late, late_rx) = pending("http://localhost/", b"late");
    assert!(dispatcher.accept(late).is_none());
    match result_of(late_rx) {
        Err(e) => assert!(matches!(
            e.kind(),
            ErrorKind::TokioCoreError("Died without returning response")
        )),
        Ok(_) => panic!("a refused request got a response"),
    }
    assert_eq!(dispatcher.on_event(ticket, Exchange::Head(200)), Directive::ReadBody);
    assert!(!dispatcher.is_finished());
    assert_eq!(
        dispatcher.on_event(ticket, Exchange::Body(vec![])),
        Directive::Settled { delivered: true }
    );
    assert!(dispatcher.is_finished());
    assert_eq!(result_of(response_rx).unwrap(), Vec::<u8>::new());
}

#[test]
fn an_idle_dispatcher_finishes_on_close() {
    let mut dispatcher = Dispatcher::new();
    dispatcher.close();
    assert!(dispatcher.is_finished());
}
