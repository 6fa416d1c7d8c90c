//! The two queues between callers and the dispatch side: the request queue,
//! which many callers feed and one dispatcher drains, and the response slot,
//! which carries one outcome back to one caller.

use vstd::prelude::*;
use crate::error::TransportError;
use crate::request::HttpRequest;

verus! {

/// `futures::sync::mpsc::UnboundedSender`, the producer side of the request queue.
#[verifier::external_type_specification]
#[verifier::external_body]
#[verifier::reject_recursive_types(T)]
pub struct ExUnboundedSender<T>(futures::sync::mpsc::UnboundedSender<T>);

/// `futures::sync::mpsc::UnboundedReceiver`, the consumer side of the request queue.
#[verifier::external_type_specification]
#[verifier::external_body]
#[verifier::reject_recursive_types(T)]
pub struct ExUnboundedReceiver<T>(futures::sync::mpsc::UnboundedReceiver<T>);

/// `futures::sync::oneshot::Sender`, the writing end of a response slot.
#[verifier::external_type_specification]
#[verifier::external_body]
#[verifier::reject_recursive_types(T)]
pub struct ExSlotSender<T>(futures::sync::oneshot::Sender<T>);

/// `futures::sync::oneshot::Receiver`, the reading end of a response slot.
#[verifier::external_type_specification]
#[verifier::external_body]
#[verifier::reject_recursive_types(T)]
pub struct ExSlotReceiver<T>(futures::sync::oneshot::Receiver<T>);

/// What a call ends in: the response bytes, or the failure.
pub type Outcome = Result<Vec<u8>, TransportError>;

/// The writing end of a response slot.
pub type ResponseSender = futures::sync::oneshot::Sender<Outcome>;

/// The reading end of a response slot.
pub type ResponseReceiver = futures::sync::oneshot::Receiver<Outcome>;

/// A request on its way to the dispatcher, with the slot for its outcome.
#[derive(Debug)]
pub struct PendingRequest {
    pub request: HttpRequest,
    pub response_tx: ResponseSender,
}

/// The producer side of the request queue.
pub type CoreSender = futures::sync::mpsc::UnboundedSender<PendingRequest>;

/// The consumer side of the request queue.
pub type CoreReceiver = futures::sync::mpsc::UnboundedReceiver<PendingRequest>;

/// Makes a request queue with `futures::sync::mpsc::unbounded`.
#[verifier::external_body]
pub(crate) fn request_queue() -> (ends: (CoreSender, CoreReceiver)) {
    futures::sync::mpsc::unbounded()
}

/// Another producer for the same queue, by `UnboundedSender::clone`.
#[verifier::external_body]
pub(crate) fn share_sender(tx: &CoreSender) -> (other: CoreSender) {
    tx.clone()
}

/// Puts `pending` on the queue with `UnboundedSender::unbounded_send`.
///
/// The answer is `false` when the consumer side is closed or gone, which is
/// for the other side to decide: nothing is promised of it.
#[verifier::external_body]
pub(crate) fn enqueue(tx: &CoreSender, pending: PendingRequest) -> (accepted: bool) {
    tx.unbounded_send(pending).is_ok()
}

/// Makes a response slot with `futures::sync::oneshot::channel`.
#[verifier::external_body]
pub(crate) fn response_slot() -> (ends: (ResponseSender, ResponseReceiver)) {
    futures::sync::oneshot::channel()
}

/// Writes `outcome` into the slot with `oneshot::Sender::send`.
///
/// The answer is `false` when the reading end is gone, which is for the
/// caller that held it to decide: nothing is promised of it.
#[verifier::external_body]
pub(crate) fn fill_slot(slot: ResponseSender, outcome: Outcome) -> (delivered: bool) {
    slot.send(outcome).is_ok()
}

} // verus!
