use futures::future::{join_all, lazy};
use futures::sync::mpsc;
use futures::Future;
use futures_cpupool::CpuPool;
use jsonrpc_client_http::ident::{call_id, FIRST_ID};
use jsonrpc_client_http::HttpTransport;

fn transport() -> HttpTransport {
    let (request_tx, _request_rx) = mpsc::unbounded();
    HttpTransport::new(request_tx)
}

#[test]
fn identifiers_start_at_one_and_count_up() {
    let mut handle = transport().handle("http://localhost:8080").unwrap();
    assert_eq!(handle.get_next_id(), 1);
    assert_eq!(handle.get_next_id(), 2);
    assert_eq!(handle.get_next_id(), 3);
}

#[test]
fn handles_of_one_transport_share_the_counter() {
    let transport = transport();
    let mut one = transport.handle("http://localhost:8080").unwrap();
    let mut other = transport.handle("http://localhost:9090").unwrap();
    let mut copy = one.clone();
    let mut late = transport.clone().handle("http://localhost:8080").unwrap();
    let ids = vec![
        one.get_next_id(),
        other.get_next_id(),
        copy.get_next_id(),
        other.get_next_id(),
        late.get_next_id(),
        one.get_next_id(),
    ];
    assert_eq!(ids, vec![1, 2, 3, 4, 5, 6]);
}

#[test]
fn transports_count_apart() {
    let mut one = transport().handle("http://localhost:8080").unwrap();
    let mut other = transport().handle("http://localhost:8080").unwrap();
    assert_eq!(one.get_next_id(), 1);
    assert_eq!(other.get_next_id(), 1);
    assert_eq!(one.get_next_id(), 2);
}

#[test]
fn a_fresh_counter_reads_one() {
    assert_eq!(FIRST_ID, 1);
    let mut handle = transport().handle("/").unwrap();
    assert_eq!(handle.get_next_id(), call_id(FIRST_ID));
}

#[test]
fn the_identifier_is_the_reading() {
    assert_eq!(call_id(0), 0);
    assert_eq!(call_id(41), 41);
    assert_eq!(call_id(usize::MAX), usize::MAX as u64);
}

#[test]
fn concurrent_callers_get_consecutive_identifiers() {
    let transport = transport();
    let pool = CpuPool::new(8);
    let callers: Vec<_> = (0..8)
        .map(|_| {
            let mut handle = transport.handle("http://localhost:8080").unwrap();
            pool.spawn(lazy(move || {
                let issued: Vec<u64> = (0..250).map(|_| handle.get_next_id()).collect();
                Ok::<Vec<u64>, ()>(issued)
            }))
        })
        .collect();
    let mut ids: Vec<u64> = Vec::new();
    for issued in join_all(callers).wait().unwrap() {
        assert!(issued.windows(2).all(|pair| pair[0] < pair[1]));
        ids.extend(issued);
    }
    ids.sort();
    assert_eq!(ids, (1..=2000).collect::<Vec<u64>>());
}
