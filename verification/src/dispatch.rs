//! The dispatch side's bookkeeping.
//!
//! The loop that drains the request queue hands every request it receives to
//! the [`Dispatcher`], which files the request's response slot under a fresh
//! ticket and gives the request back for the HTTP exchange. Exchanges of
//! different tickets run side by side; whatever happens in one is reported
//! under its ticket, and the dispatcher answers with what to do next: read the
//! body, or nothing more, because the slot has been settled.

use vstd::prelude::*;
use std::collections::HashMap;
use crate::channel::{fill_slot, Outcome, PendingRequest, ResponseSender};
use crate::error::TransportError;
use crate::request::HttpRequest;

verus! {

broadcast use vstd::std_specs::hash::group_hash_axioms;

/// The one status code that makes an exchange a success.
pub const STATUS_OK: u16 = 200;

/// How far the exchange of a request has come.
#[derive(Clone, Copy, Debug, PartialEq, Eq, Structural)]
pub enum Stage {
    /// The request is out; no response head has been seen.
    AwaitingHead,
    /// The head came with `STATUS_OK`; the body is being read.
    AwaitingBody,
}

/// A request whose slot is still to be settled.
pub struct InFlight {
    pub stage: Stage,
    pub slot: ResponseSender,
}

/// Something that happened in the exchange of one request.
#[derive(Debug)]
pub enum Exchange {
    /// The exchange failed below HTTP: while connecting, sending or reading.
    Failed(hyper::Error),
    /// The response head arrived, with this status code.
    Head(u16),
    /// The body has been read to its end; these are its bytes.
    Body(Vec<u8>),
}

/// What the dispatcher makes of an event.
pub enum Progress {
    /// The head is fine: the body is to be read and reported.
    ReadBody,
    /// The exchange is over: this outcome goes into this slot.
    Deliver { slot: ResponseSender, outcome: Outcome },
    /// The event belongs to no request in flight, or cannot follow what has
    /// been seen of its request: nothing changes.
    Ignored,
}

/// What the dispatch loop is told after an event.
#[derive(Clone, Copy, Debug, PartialEq, Eq, Structural)]
pub enum Directive {
    /// Read the body of the response and report it under the same ticket.
    ReadBody,
    /// The request is settled. `delivered` is false where the caller had
    /// given up waiting, in which case the outcome is lost.
    Settled { delivered: bool },
    /// The event was ignored.
    Ignored,
}

/// The outcome that `event` brings to a request at `stage`, or `None` where
/// the request stays in flight or the event cannot come at that stage.
pub open spec fn outcome_of(stage: Stage, event: Exchange) -> Option<Outcome> {
    match (stage, event) {
        (_, Exchange::Failed(cause)) => Some(Err(TransportError::network(cause))),
        (Stage::AwaitingHead, Exchange::Head(status)) => if status == STATUS_OK {
            None
        } else {
            Some(Err(TransportError::http(status)))
        },
        (Stage::AwaitingBody, Exchange::Body(bytes)) => Some(Ok(bytes)),
        (Stage::AwaitingHead, Exchange::Body(_)) => None,
        (Stage::AwaitingBody, Exchange::Head(_)) => None,
    }
}

/// The dispatcher as a value: the requests in flight by ticket, the next
/// ticket, and whether the request queue has reported its end.
pub struct DispatchState {
    pub in_flight: Map<u64, InFlight>,
    pub next_ticket: u64,
    pub closed: bool,
}

impl DispatchState {
    /// No request seen yet.
    pub open spec fn initial() -> DispatchState {
        DispatchState { in_flight: Map::empty(), next_ticket: 0, closed: false }
    }

    /// Every ticket in flight has been handed out, and only finitely many are.
    pub open spec fn wf(self) -> bool {
        &&& self.in_flight.dom().finite()
        &&& forall|t: u64| self.in_flight.contains_key(t) ==> t < self.next_ticket
    }

    /// Whether a request that arrives now is taken on.
    pub open spec fn takes_requests(self) -> bool {
        !self.closed && self.next_ticket < u64::MAX
    }

    /// The state after taking on a request whose slot is `slot`.
    pub open spec fn accept(self, slot: ResponseSender) -> DispatchState {
        DispatchState {
            in_flight: self.in_flight.insert(
                self.next_ticket,
                InFlight { stage: Stage::AwaitingHead, slot },
            ),
            next_ticket: (self.next_ticket + 1) as u64,
            closed: self.closed,
        }
    }

    /// What `event` under `ticket` asks for.
    pub open spec fn progress_of(self, ticket: u64, event: Exchange) -> Progress {
        if !self.in_flight.contains_key(ticket) {
            Progress::Ignored
        } else {
            let entry = self.in_flight[ticket];
            match outcome_of(entry.stage, event) {
                Some(outcome) => Progress::Deliver { slot: entry.slot, outcome },
                None => if entry.stage == Stage::AwaitingHead && event == Exchange::Head(
                    STATUS_OK,
                ) {
                    Progress::ReadBody
                } else {
                    Progress::Ignored
                },
            }
        }
    }

    /// The state after `event` under `ticket`.
    pub open spec fn after(self, ticket: u64, event: Exchange) -> DispatchState {
        match self.progress_of(ticket, event) {
            Progress::Ignored => self,
            Progress::ReadBody => DispatchState {
                in_flight: self.in_flight.insert(
                    ticket,
                    InFlight { stage: Stage::AwaitingBody, slot: self.in_flight[ticket].slot },
                ),
                ..self
            },
            Progress::Deliver { .. } => DispatchState {
                in_flight: self.in_flight.remove(ticket),
                ..self
            },
        }
    }

    /// The state after the request queue has reported its end.
    pub open spec fn close(self) -> DispatchState {
        DispatchState { closed: true, ..self }
    }

    /// Whether the loop is done: the queue has ended and nothing is in flight.
    pub open spec fn finished(self) -> bool {
        self.closed && self.in_flight.dom().is_empty()
    }
}

/// The table of requests in flight.
pub struct Dispatcher {
    in_flight: HashMap<u64, InFlight>,
    next_ticket: u64,
    closed: bool,
}

impl View for Dispatcher {
    type V = DispatchState;

    closed spec fn view(&self) -> DispatchState {
        DispatchState {
            in_flight: self.in_flight@,
            next_ticket: self.next_ticket,
            closed: self.closed,
        }
    }
}

impl Dispatcher {
    #[verifier::type_invariant]
    spec fn inv(self) -> bool {
        forall|t: u64| self.in_flight@.contains_key(t) ==> t < self.next_ticket
    }

    /// A dispatcher that has seen nothing yet.
    pub fn new() -> (d: Dispatcher)
        ensures
            d@ == DispatchState::initial(),
            d@.wf(),
    {
        Dispatcher { in_flight: HashMap::new(), next_ticket: 0, closed: false }
    }

    /// Takes on a request from the queue.
    ///
    /// Files the request's slot under the next ticket and returns the ticket
    /// with the request, which is now to be sent. Once the queue has reported
    /// its end, or when the tickets have run out, the request is refused and
    /// its slot dropped unwritten.
    pub fn accept(&mut self, pending: PendingRequest) -> (issued: Option<(u64, HttpRequest)>)
        ensures
            issued is Some <==> old(self)@.takes_requests(),
            issued matches Some((ticket, request)) ==> {
                &&& ticket == old(self)@.next_ticket
                &&& request == pending.request
                &&& final(self)@ == old(self)@.accept(pending.response_tx)
            },
            issued is None ==> final(self)@ == old(self)@,
            old(self)@.wf() && final(self)@.wf(),
    {
        proof {
            use_type_invariant(&*self);
        }
        if self.closed || self.next_ticket == u64::MAX {
            return None;
        }
        let ticket = self.next_ticket;
        let PendingRequest { request, response_tx } = pending;
        let mut table = self.take_table();
        table.insert(ticket, InFlight { stage: Stage::AwaitingHead, slot: response_tx });
        self.next_ticket = ticket + 1;
        self.in_flight = table;
        Some((ticket, request))
    }

    /// Takes note of `event` in the exchange of `ticket` and says what it
    /// asks for. A slot to deliver into has left the table for good.
    pub fn progress(&mut self, ticket: u64, event: Exchange) -> (p: Progress)
        ensures
            p == old(self)@.progress_of(ticket, event),
            final(self)@ == old(self)@.after(ticket, event),
            old(self)@.wf() && final(self)@.wf(),
    {
        proof {
            use_type_invariant(&*self);
        }
        let mut table = self.take_table();
        let p = match table.remove(&ticket) {
            None => Progress::Ignored,
            Some(entry) => {
                let InFlight { stage, slot } = entry;
                match (stage, event) {
                    (_, Exchange::Failed(cause)) => Progress::Deliver {
                        slot,
                        outcome: Err(TransportError::network(cause)),
                    },
                    (Stage::AwaitingHead, Exchange::Head(status)) => {
                        if status == STATUS_OK {
                            table.insert(ticket, InFlight { stage: Stage::AwaitingBody, slot });
                            Progress::ReadBody
                        } else {
                            Progress::Deliver { slot, outcome: Err(TransportError::http(status)) }
                        }
                    },
                    (Stage::AwaitingBody, Exchange::Body(bytes)) => Progress::Deliver {
                        slot,
                        outcome: Ok(bytes),
                    },
                    (stage, _) => {
                        table.insert(ticket, InFlight { stage, slot });
                        Progress::Ignored
                    },
                }
            },
        };
        self.in_flight = table;
        assert(self@.in_flight =~= old(self)@.after(ticket, event).in_flight);
        p
    }

    /// Takes the table out, leaving an empty one, so that it can be worked on.
    fn take_table(&mut self) -> (table: HashMap<u64, InFlight>)
        ensures
            table@ == old(self).in_flight@,
            final(self).in_flight@ == Map::<u64, InFlight>::empty(),
            final(self).next_ticket == old(self).next_ticket,
            final(self).closed == old(self).closed,
    {
        let mut table = HashMap::new();
        std::mem::swap(&mut table, &mut self.in_flight);
        table
    }

    /// Takes note of `event` in the exchange of `ticket`, writes the outcome
    /// into the request's slot where the event settles it, and says what the
    /// loop is to do next.
    pub fn on_event(&mut self, ticket: u64, event: Exchange) -> (d: Directive)
        ensures
            final(self)@ == old(self)@.after(ticket, event),
            old(self)@.wf() && final(self)@.wf(),
            match old(self)@.progress_of(ticket, event) {
                Progress::ReadBody => d == Directive::ReadBody,
                Progress::Deliver { .. } => d is Settled,
                Progress::Ignored => d == Directive::Ignored,
            },
    {
        match self.progress(ticket, event) {
            Progress::ReadBody => Directive::ReadBody,
            Progress::Deliver { slot, outcome } => Directive::Settled {
                delivered: fill_slot(slot, outcome),
            },
            Progress::Ignored => Directive::Ignored,
        }
    }

    /// Takes note that the request queue has reported its end: every
    /// producer is gone, and no request will arrive any more.
    pub fn close(&mut self)
        ensures
            final(self)@ == old(self)@.close(),
            old(self)@.wf() && final(self)@.wf(),
    {
        proof {
            use_type_invariant(&*self);
        }
        self.closed = true;
    }

    /// Whether the loop is done.
    pub fn is_finished(&self) -> (done: bool)
        ensures
            done == self@.finished(),
    {
        self.closed && self.in_flight.is_empty()
    }
}

} // verus!
