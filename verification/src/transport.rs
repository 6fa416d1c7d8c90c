//! The transport and its per-destination handles: the caller's side of the
//! request queue.

use vstd::prelude::*;
use std::sync::Arc;
use std::sync::atomic::AtomicUsize;
use crate::channel::{
    enqueue, response_slot, share_sender, CoreSender, Outcome, PendingRequest, ResponseReceiver,
    ResponseSender,
};
use crate::error::{ErrorKind, TransportError};
use crate::ident::{advance, call_id, new_counter, share_counter};
use crate::request::{parse_uri, parsed_uri, rpc_request, HttpRequest};

verus! {

/// The shared core of a transport: the producer side of the request queue and
/// the counter that call identifiers come from.
#[derive(Debug)]
pub struct HttpTransport {
    request_tx: CoreSender,
    id: Arc<AtomicUsize>,
}

/// A front end of a transport for one destination address.
#[derive(Debug)]
pub struct HttpHandle {
    request_tx: CoreSender,
    uri: String,
    id: Arc<AtomicUsize>,
}

/// What a caller gets for the response slot it waited on: the outcome that
/// was written into it, or, where the slot was dropped unwritten, the error
/// that says so.
pub open spec fn spec_settle(written: Option<Outcome>) -> Outcome {
    match written {
        Some(outcome) => outcome,
        None => Err(TransportError::died_without_response()),
    }
}

/// What a caller gets for the response slot it waited on; `None` stands for a
/// slot that was dropped unwritten.
#[verifier::when_used_as_spec(spec_settle)]
pub fn settle(written: Option<Outcome>) -> (outcome: Outcome)
    ensures
        outcome == spec_settle(written),
{
    match written {
        Some(outcome) => outcome,
        None => Err(TransportError::died_without_response()),
    }
}

/// What a submission comes to once the queue has answered: the reading end of
/// the response slot where the queue took the request, the error of a closed
/// queue where it did not.
pub fn admitted(accepted: bool, response_rx: ResponseReceiver) -> (r: Result<
    ResponseReceiver,
    TransportError,
>)
    ensures
        accepted ==> r == Ok::<ResponseReceiver, TransportError>(response_rx),
        !accepted ==> r == Err::<ResponseReceiver, TransportError>(
            TransportError::not_listening(),
        ),
{
    if accepted {
        Ok(response_rx)
    } else {
        Err(TransportError::not_listening())
    }
}

/// What a call of `send` ends in for its caller: the error of a closed queue
/// where the request was not taken, else what `settle` makes of the slot.
pub open spec fn send_result(accepted: bool, written: Option<Outcome>) -> Outcome {
    if accepted {
        spec_settle(written)
    } else {
        Err(TransportError::not_listening())
    }
}

/// Whether `handle` is what `transport.handle(uri)` returns on success: it
/// sends to `uri` as parsed, and counts on the transport's counter.
pub open spec fn handle_of(transport: HttpTransport, uri: Seq<char>, handle: HttpHandle) -> bool {
    &&& Some(handle.address()) == parsed_uri(uri)
    &&& handle.counter() == transport.counter()
}

/// A call gets exactly what the dispatch side wrote into its slot: the
/// response bytes unchanged, or the error as it is, an HTTP error with its
/// status code included. A slot that was dropped unwritten gives the error
/// that says so.
pub proof fn lemma_send_yields_what_was_written(body: Vec<u8>, status: u16, e: TransportError)
    ensures
        send_result(true, Some(Ok(body))) == Ok::<Vec<u8>, TransportError>(body),
        send_result(true, Some(Err(e))) == Err::<Vec<u8>, TransportError>(e),
        send_result(true, Some(Err(TransportError::http(status)))) matches Err(got) && got.kind
            == ErrorKind::HttpError(status),
        send_result(true, None) == Err::<Vec<u8>, TransportError>(
            TransportError::died_without_response(),
        ),
{
}

/// A submission that finds the queue closed ends in the error that nobody is
/// listening, whatever the dispatch side did or would have done: nothing of
/// it is consulted.
pub proof fn lemma_closed_queue_is_not_listening(written: Option<Outcome>)
    ensures
        send_result(false, written) == Err::<Vec<u8>, TransportError>(
            TransportError::not_listening(),
        ),
        TransportError::not_listening().kind == ErrorKind::TokioCoreError(
            crate::error::NOT_LISTENING,
        ),
{
}

/// Two handles of one transport draw their identifiers from one counter, and
/// each sends its requests to its own address: the request that a handle
/// makes goes to the URI that the handle was made for, so requests of handles
/// for different URIs go to different places.
pub proof fn lemma_handles_route_to_their_own_address(
    transport: HttpTransport,
    one_uri: Seq<char>,
    other_uri: Seq<char>,
    one: HttpHandle,
    other: HttpHandle,
    one_payload: Seq<u8>,
    other_payload: Seq<u8>,
    one_request: HttpRequest,
    other_request: HttpRequest,
)
    requires
        handle_of(transport, one_uri, one),
        handle_of(transport, other_uri, other),
        rpc_request(one.address(), one_payload, one_request),
        rpc_request(other.address(), other_payload, other_request),
    ensures
        one.counter() == other.counter(),
        Some(one_request.uri@) == parsed_uri(one_uri),
        Some(other_request.uri@) == parsed_uri(other_uri),
        parsed_uri(one_uri) != parsed_uri(other_uri) ==> one_request.uri@ != other_request.uri@,
{
}

impl HttpTransport {
    /// The counter that the identifiers of this transport come from.
    pub closed spec fn counter(&self) -> Arc<AtomicUsize> {
        self.id
    }

    /// The producer side of the queue that this transport feeds.
    pub closed spec fn queue(&self) -> CoreSender {
        self.request_tx
    }

    /// A transport that feeds `request_tx`, with a fresh identifier counter.
    pub fn new(request_tx: CoreSender) -> (transport: HttpTransport)
        ensures
            transport.queue() == request_tx,
    {
        HttpTransport { request_tx, id: new_counter() }
    }

    /// A handle for the destination `uri`.
    ///
    /// Fails exactly when `uri` does not parse as a URI. The handle sends to
    /// the URI as parsed and draws its identifiers from this transport's
    /// counter.
    pub fn handle(&self, uri: &str) -> (r: Result<HttpHandle, TransportError>)
        ensures
            r is Ok <==> parsed_uri(uri@) is Some,
            r matches Ok(handle) ==> handle_of(*self, uri@, handle),
            r matches Err(e) ==> e.kind is Uri,
    {
        match parse_uri(uri) {
            Ok(parsed) => Ok(
                HttpHandle {
                    request_tx: share_sender(&self.request_tx),
                    uri: parsed,
                    id: share_counter(&self.id),
                },
            ),
            Err(refusal) => Err(TransportError::new(ErrorKind::Uri(refusal))),
        }
    }
}

impl Clone for HttpTransport {
    /// Another owner of the same queue and the same counter.
    fn clone(&self) -> (other: Self)
        ensures
            other.counter() == self.counter(),
    {
        HttpTransport { request_tx: share_sender(&self.request_tx), id: share_counter(&self.id) }
    }
}

impl HttpHandle {
    /// The text of the destination URI.
    pub closed spec fn address(&self) -> Seq<char> {
        self.uri@
    }

    /// The counter that the identifiers of this handle come from.
    pub closed spec fn counter(&self) -> Arc<AtomicUsize> {
        self.id
    }

    /// The text of the destination URI.
    pub fn uri(&self) -> (uri: &str)
        ensures
            uri@ == self.address(),
    {
        self.uri.as_str()
    }

    /// The request that carries `body` to this handle's destination.
    pub fn create_request(&self, body: Vec<u8>) -> (request: HttpRequest)
        ensures
            rpc_request(self.address(), body@, request),
            request.length_matches(),
    {
        HttpRequest::post_json(&self.uri, body)
    }

    /// The next call identifier: the value that one atomic increment finds
    /// in the counter that the handles of the transport share. The handle
    /// itself stays as it is.
    pub fn get_next_id(&mut self) -> (id: u64)
        ensures
            final(self).address() == old(self).address(),
            final(self).counter() == old(self).counter(),
    {
        call_id(advance(&self.id))
    }

    /// What goes on the request queue for `json_data`: the request that
    /// carries it to this handle's destination, with `response_tx` as the
    /// slot for the outcome.
    pub fn submission(&self, json_data: Vec<u8>, response_tx: ResponseSender) -> (pending:
        PendingRequest)
        ensures
            rpc_request(self.address(), json_data@, pending.request),
            pending.request.length_matches(),
            pending.response_tx == response_tx,
    {
        PendingRequest { request: self.create_request(json_data), response_tx }
    }

    /// Submits `json_data` to the dispatch side.
    ///
    /// Puts the submission for `json_data`, with the writing end of a fresh
    /// response slot, on the request queue. Where the queue takes it, the
    /// result is the slot's reading end; where the queue is closed, the only
    /// error there is says that nobody is listening.
    pub fn send(&self, json_data: Vec<u8>) -> (r: Result<ResponseReceiver, TransportError>)
        ensures
            r matches Err(e) ==> e == TransportError::not_listening(),
    {
        let (response_tx, response_rx) = response_slot();
        let accepted = enqueue(&self.request_tx, self.submission(json_data, response_tx));
        admitted(accepted, response_rx)
    }
}

impl Clone for HttpHandle {
    /// Another handle for the same destination on the same transport.
    fn clone(&self) -> (other: Self)
        ensures
            other.address() == self.address(),
            other.counter() == self.counter(),
    {
        HttpHandle {
            request_tx: share_sender(&self.request_tx),
            uri: self.uri.clone(),
            id: share_counter(&self.id),
        }
    }
}

} // verus!
