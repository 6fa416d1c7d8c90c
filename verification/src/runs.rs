//! Runs of the dispatcher: what it does over a whole sequence of arrivals and
//! events, in whatever order concurrent exchanges produce them.

use vstd::prelude::*;
use crate::channel::{Outcome, PendingRequest, ResponseSender};
use crate::dispatch::{DispatchState, Exchange, InFlight, Progress, STATUS_OK};
use crate::error::TransportError;
use crate::request::HttpRequest;

verus! {

/// What reaches the dispatch loop.
pub enum Input {
    /// A request came off the queue.
    Arrival(PendingRequest),
    /// Something happened in the exchange of a ticket.
    Event { ticket: u64, event: Exchange },
    /// The queue reported its end.
    End,
}

/// What the dispatcher does about an input.
pub enum Effect {
    /// The request was taken on under `ticket` and is to be sent.
    Issued { ticket: u64, request: HttpRequest },
    /// The request was refused and its slot dropped.
    Refused,
    /// The body of the response of `ticket` is to be read.
    ReadBody { ticket: u64 },
    /// `outcome` was handed to `slot`, which was filed under `ticket`.
    Delivered { ticket: u64, slot: ResponseSender, outcome: Outcome },
    /// Nothing.
    Ignored,
    /// The end of the queue was noted.
    Closed,
}

/// The state after `input`, and what was done about it.
pub open spec fn react(s: DispatchState, input: Input) -> (DispatchState, Effect) {
    match input {
        Input::Arrival(pending) => if s.takes_requests() {
            (
                s.accept(pending.response_tx),
                Effect::Issued { ticket: s.next_ticket, request: pending.request },
            )
        } else {
            (s, Effect::Refused)
        },
        Input::Event { ticket, event } => (
            s.after(ticket, event),
            match s.progress_of(ticket, event) {
                Progress::ReadBody => Effect::ReadBody { ticket },
                Progress::Deliver { slot, outcome } => Effect::Delivered { ticket, slot, outcome },
                Progress::Ignored => Effect::Ignored,
            },
        ),
        Input::End => (s.close(), Effect::Closed),
    }
}

/// The state after all of `inputs`, in order.
pub open spec fn run(s: DispatchState, inputs: Seq<Input>) -> DispatchState
    decreases inputs.len(),
{
    if inputs.len() == 0 {
        s
    } else {
        react(run(s, inputs.drop_last()), inputs.last()).0
    }
}

/// What was done about the `i`-th of `inputs`.
pub open spec fn effect_at(s: DispatchState, inputs: Seq<Input>, i: int) -> Effect {
    react(run(s, inputs.take(i)), inputs[i]).1
}

/// The ticket's slot has been settled: the ticket was handed out and is no
/// longer in flight.
pub open spec fn retired(s: DispatchState, ticket: u64) -> bool {
    ticket < s.next_ticket && !s.in_flight.contains_key(ticket)
}

/// `slot` is filed under `ticket`.
pub open spec fn files(s: DispatchState, ticket: u64, slot: ResponseSender) -> bool {
    s.in_flight.contains_key(ticket) && s.in_flight[ticket].slot == slot
}

/// Whether `input` is an event in the exchange of `ticket`.
pub open spec fn concerns(input: Input, ticket: u64) -> bool {
    input matches Input::Event { ticket: t, .. } && t == ticket
}

/// Whether none of `inputs` is an event in the exchange of `ticket`.
pub open spec fn leaves_alone(inputs: Seq<Input>, ticket: u64) -> bool {
    forall|i: int| 0 <= i < inputs.len() ==> !concerns(#[trigger] inputs[i], ticket)
}

/// One more input extends a run by one reaction.
pub proof fn lemma_run_step(s: DispatchState, inputs: Seq<Input>, i: int)
    requires
        0 <= i < inputs.len(),
    ensures
        run(s, inputs.take(i + 1)) == react(run(s, inputs.take(i)), inputs[i]).0,
{
    let longer = inputs.take(i + 1);
    assert(longer.drop_last() =~= inputs.take(i));
    assert(longer.last() == inputs[i]);
}

/// Well-formedness survives every input.
pub proof fn lemma_react_wf(s: DispatchState, input: Input)
    requires
        s.wf(),
    ensures
        react(s, input).0.wf(),
        react(s, input).0.next_ticket >= s.next_ticket,
        s.closed ==> react(s, input).0.closed,
{
}

/// Well-formedness survives every run; tickets only grow, and a closed
/// dispatcher stays closed.
pub proof fn lemma_run_wf(s: DispatchState, inputs: Seq<Input>)
    requires
        s.wf(),
    ensures
        run(s, inputs).wf(),
        run(s, inputs).next_ticket >= s.next_ticket,
        s.closed ==> run(s, inputs).closed,
    decreases inputs.len(),
{
    if inputs.len() > 0 {
        lemma_run_wf(s, inputs.drop_last());
        lemma_react_wf(run(s, inputs.drop_last()), inputs.last());
    }
}

/// A settled ticket stays settled: no input brings it back in flight, and
/// nothing is issued, read or delivered under it again.
pub proof fn lemma_retired_stays(s: DispatchState, input: Input, ticket: u64)
    requires
        s.wf(),
        retired(s, ticket),
    ensures
        retired(react(s, input).0, ticket),
        match react(s, input).1 {
            Effect::Issued { ticket: t, .. } => t != ticket,
            Effect::ReadBody { ticket: t } => t != ticket,
            Effect::Delivered { ticket: t, .. } => t != ticket,
            _ => true,
        },
{
}

/// A settled ticket stays settled over any run.
pub proof fn lemma_retired_stays_over_run(s: DispatchState, inputs: Seq<Input>, ticket: u64)
    requires
        s.wf(),
        retired(s, ticket),
    ensures
        retired(run(s, inputs), ticket),
    decreases inputs.len(),
{
    if inputs.len() > 0 {
        lemma_retired_stays_over_run(s, inputs.drop_last(), ticket);
        lemma_run_wf(s, inputs.drop_last());
        lemma_retired_stays(run(s, inputs.drop_last()), inputs.last(), ticket);
    }
}

/// The state in which the `j`-th input is met is the state after the
/// `i`-th input, run on over the inputs between them.
pub proof fn lemma_run_split(s: DispatchState, inputs: Seq<Input>, i: int, j: int)
    requires
        0 <= i <= j <= inputs.len(),
    ensures
        run(s, inputs.take(j)) == run(run(s, inputs.take(i)), inputs.subrange(i, j)),
    decreases j - i,
{
    if i == j {
        assert(inputs.subrange(i, j) =~= Seq::<Input>::empty());
    } else {
        lemma_run_split(s, inputs, i, j - 1);
        lemma_run_step(s, inputs, j - 1);
        let between = inputs.subrange(i, j);
        assert(between.drop_last() =~= inputs.subrange(i, j - 1));
        assert(between.last() == inputs[j - 1]);
    }
}

/// No slot is written twice: in any run, at most one delivery is made under
/// any one ticket.
pub proof fn lemma_settled_once(s: DispatchState, inputs: Seq<Input>, i: int, j: int)
    requires
        s.wf(),
        0 <= i < j < inputs.len(),
        effect_at(s, inputs, i) is Delivered,
        effect_at(s, inputs, j) is Delivered,
    ensures
        effect_at(s, inputs, i)->Delivered_ticket != effect_at(s, inputs, j)->Delivered_ticket,
{
    let ticket = effect_at(s, inputs, i)->Delivered_ticket;
    let before = run(s, inputs.take(i));
    lemma_run_wf(s, inputs.take(i));
    lemma_run_step(s, inputs, i);
    let settled = run(s, inputs.take(i + 1));
    assert(retired(settled, ticket));
    lemma_react_wf(before, inputs[i]);
    lemma_run_split(s, inputs, i + 1, j);
    let between = inputs.subrange(i + 1, j);
    lemma_retired_stays_over_run(settled, between, ticket);
    lemma_run_wf(settled, between);
    lemma_retired_stays(run(s, inputs.take(j)), inputs[j], ticket);
}

/// No ticket is handed out twice.
pub proof fn lemma_issued_once(s: DispatchState, inputs: Seq<Input>, i: int, j: int)
    requires
        s.wf(),
        0 <= i < j < inputs.len(),
        effect_at(s, inputs, i) is Issued,
        effect_at(s, inputs, j) is Issued,
    ensures
        effect_at(s, inputs, i)->Issued_ticket < effect_at(s, inputs, j)->Issued_ticket,
{
    lemma_run_wf(s, inputs.take(i));
    lemma_run_step(s, inputs, i);
    lemma_react_wf(run(s, inputs.take(i)), inputs[i]);
    lemma_run_split(s, inputs, i + 1, j);
    lemma_run_wf(run(s, inputs.take(i + 1)), inputs.subrange(i + 1, j));
}

/// While a ticket is in flight its slot is the one it was filed with; an
/// input either leaves it filed or delivers into that very slot.
pub proof fn lemma_slot_kept(s: DispatchState, input: Input, ticket: u64, slot: ResponseSender)
    requires
        s.wf(),
        files(s, ticket, slot),
    ensures
        files(react(s, input).0, ticket, slot) || retired(react(s, input).0, ticket),
        react(s, input).1 matches Effect::Delivered { ticket: t, slot: written, .. } ==> (t
            == ticket ==> written == slot),
        !concerns(input, ticket) ==> react(s, input).0.in_flight.contains_key(ticket) && react(
            s,
            input,
        ).0.in_flight[ticket] == s.in_flight[ticket],
{
}

/// Over a run, a filed slot stays filed or the ticket is settled.
pub proof fn lemma_slot_kept_over_run(
    s: DispatchState,
    inputs: Seq<Input>,
    ticket: u64,
    slot: ResponseSender,
)
    requires
        s.wf(),
        files(s, ticket, slot),
    ensures
        files(run(s, inputs), ticket, slot) || retired(run(s, inputs), ticket),
    decreases inputs.len(),
{
    if inputs.len() > 0 {
        let before = run(s, inputs.drop_last());
        lemma_slot_kept_over_run(s, inputs.drop_last(), ticket, slot);
        lemma_run_wf(s, inputs.drop_last());
        if files(before, ticket, slot) {
            lemma_slot_kept(before, inputs.last(), ticket, slot);
        } else {
            lemma_retired_stays(before, inputs.last(), ticket);
        }
    }
}

/// Every outcome reaches the caller it belongs to: whatever is delivered
/// under the ticket of a request goes into the slot that came with that
/// request.
pub proof fn lemma_delivery_reaches_its_caller(
    s: DispatchState,
    pending: PendingRequest,
    inputs: Seq<Input>,
    j: int,
)
    requires
        s.wf(),
        s.takes_requests(),
        0 <= j < inputs.len(),
        effect_at(s.accept(pending.response_tx), inputs, j) is Delivered,
        effect_at(s.accept(pending.response_tx), inputs, j)->Delivered_ticket == s.next_ticket,
    ensures
        effect_at(s.accept(pending.response_tx), inputs, j)->Delivered_slot == pending.response_tx,
{
    let ticket = s.next_ticket;
    let slot = pending.response_tx;
    let filed = s.accept(slot);
    lemma_react_wf(s, Input::Arrival(pending));
    assert(filed == react(s, Input::Arrival(pending)).0);
    assert(files(filed, ticket, slot));
    let before = run(filed, inputs.take(j));
    lemma_slot_kept_over_run(filed, inputs.take(j), ticket, slot);
    lemma_run_wf(filed, inputs.take(j));
    if files(before, ticket, slot) {
        lemma_slot_kept(before, inputs[j], ticket, slot);
    } else {
        lemma_retired_stays(before, inputs[j], ticket);
    }
}

/// Inputs that are no events of a ticket leave its entry as it is.
pub proof fn lemma_left_alone(s: DispatchState, inputs: Seq<Input>, ticket: u64)
    requires
        s.wf(),
        s.in_flight.contains_key(ticket),
        leaves_alone(inputs, ticket),
    ensures
        run(s, inputs).in_flight.contains_key(ticket),
        run(s, inputs).in_flight[ticket] == s.in_flight[ticket],
    decreases inputs.len(),
{
    if inputs.len() > 0 {
        let shorter = inputs.drop_last();
        assert(leaves_alone(shorter, ticket)) by {
            assert forall|i: int| 0 <= i < shorter.len() implies !concerns(
                #[trigger] shorter[i],
                ticket,
            ) by {
                assert(shorter[i] == inputs[i]);
            }
        }
        lemma_left_alone(s, shorter, ticket);
        lemma_run_wf(s, shorter);
        assert(!concerns(inputs[inputs.len() - 1], ticket));
        lemma_slot_kept(run(s, shorter), inputs.last(), ticket, s.in_flight[ticket].slot);
    }
}

/// An exchange that answers 200 and whose body reads as `body` settles the
/// request with exactly `body`, whatever happens to other requests in the
/// meantime: the head asks for the body, and the body is delivered, unchanged,
/// into the slot that came with the request.
pub proof fn lemma_ok_exchange_yields_body(
    s: DispatchState,
    pending: PendingRequest,
    meanwhile: Seq<Input>,
    later: Seq<Input>,
    body: Vec<u8>,
)
    requires
        s.wf(),
        s.takes_requests(),
        leaves_alone(meanwhile, s.next_ticket),
        leaves_alone(later, s.next_ticket),
    ensures
        ({
            let ticket = s.next_ticket;
            let sent = run(s.accept(pending.response_tx), meanwhile);
            let head = Input::Event { ticket, event: Exchange::Head(STATUS_OK) };
            let reading = run(react(sent, head).0, later);
            let read = Input::Event { ticket, event: Exchange::Body(body) };
            &&& react(sent, head).1 == Effect::ReadBody { ticket }
            &&& react(reading, read).1 == Effect::Delivered {
                ticket,
                slot: pending.response_tx,
                outcome: Ok(body),
            }
            &&& retired(react(reading, read).0, ticket)
        }),
{
    let ticket = s.next_ticket;
    let filed = s.accept(pending.response_tx);
    lemma_react_wf(s, Input::Arrival(pending));
    assert(filed == react(s, Input::Arrival(pending)).0);
    lemma_left_alone(filed, meanwhile, ticket);
    lemma_run_wf(filed, meanwhile);
    let sent = run(filed, meanwhile);
    let head = Input::Event { ticket, event: Exchange::Head(STATUS_OK) };
    lemma_react_wf(sent, head);
    let awaiting = react(sent, head).0;
    assert(awaiting.in_flight.contains_key(ticket));
    lemma_left_alone(awaiting, later, ticket);
    lemma_run_wf(awaiting, later);
}

/// An exchange that answers with a status other than 200 settles the request
/// with the HTTP error that carries that status, and no body is read.
pub proof fn lemma_bad_status_yields_http_error(
    s: DispatchState,
    pending: PendingRequest,
    meanwhile: Seq<Input>,
    status: u16,
)
    requires
        s.wf(),
        s.takes_requests(),
        leaves_alone(meanwhile, s.next_ticket),
        status != STATUS_OK,
    ensures
        ({
            let ticket = s.next_ticket;
            let sent = run(s.accept(pending.response_tx), meanwhile);
            let head = Input::Event { ticket, event: Exchange::Head(status) };
            &&& react(sent, head).1 == Effect::Delivered {
                ticket,
                slot: pending.response_tx,
                outcome: Err(TransportError::http(status)),
            }
            &&& retired(react(sent, head).0, ticket)
        }),
{
    let ticket = s.next_ticket;
    let filed = s.accept(pending.response_tx);
    lemma_react_wf(s, Input::Arrival(pending));
    assert(filed == react(s, Input::Arrival(pending)).0);
    lemma_left_alone(filed, meanwhile, ticket);
    lemma_run_wf(filed, meanwhile);
}

/// An exchange that fails below HTTP, before the head or while the body is
/// read, settles the request with the network error around the cause.
pub proof fn lemma_failure_yields_network_error(
    s: DispatchState,
    ticket: u64,
    meanwhile: Seq<Input>,
    cause: hyper::Error,
)
    requires
        s.wf(),
        s.in_flight.contains_key(ticket),
        leaves_alone(meanwhile, ticket),
    ensures
        ({
            let now = run(s, meanwhile);
            let failed = Input::Event { ticket, event: Exchange::Failed(cause) };
            &&& react(now, failed).1 == Effect::Delivered {
                ticket,
                slot: s.in_flight[ticket].slot,
                outcome: Err(TransportError::network(cause)),
            }
            &&& retired(react(now, failed).0, ticket)
        }),
{
    lemma_left_alone(s, meanwhile, ticket);
    lemma_run_wf(s, meanwhile);
}

/// Once the queue has reported its end, no request is taken on any more, and
/// the loop is done as soon as nothing is in flight; from then on no input
/// changes anything.
pub proof fn lemma_closed_for_good(s: DispatchState, inputs: Seq<Input>, input: Input)
    requires
        s.wf(),
    ensures
        run(s.close(), inputs).closed,
        run(s.close(), inputs).finished() <==> run(s.close(), inputs).in_flight.dom().is_empty(),
        !(react(run(s.close(), inputs), input).1 is Issued),
        run(s.close(), inputs).finished() ==> react(run(s.close(), inputs), input).0 == run(
            s.close(),
            inputs,
        ),
{
    lemma_run_wf(s.close(), inputs);
    let now = run(s.close(), inputs);
    if now.finished() {
        assert(now.in_flight =~= Map::<u64, InFlight>::empty());
        assert(react(now, input).0.in_flight =~= now.in_flight);
    }
}

} // verus!
