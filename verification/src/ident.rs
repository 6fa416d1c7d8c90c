//! Call identifiers: one counter per transport, shared by all of its handles
//! and advanced by one atomic increment per identifier.

use vstd::prelude::*;
use std::sync::Arc;
use std::sync::atomic::{AtomicUsize, Ordering};

verus! {

/// The counter value that a fresh transport starts from.
pub const FIRST_ID: usize = 1;

/// The identifier that an increment hands out when it finds the counter at
/// `reading`.
pub open spec fn spec_call_id(reading: usize) -> u64 {
    reading as u64
}

/// The counter value that an increment leaves behind when it finds the
/// counter at `reading`. The increment wraps at the counter's width.
pub open spec fn next_reading(reading: usize) -> usize {
    if reading == usize::MAX {
        0
    } else {
        (reading + 1) as usize
    }
}

/// One identifier handed out: which handle asked, and what it got.
pub struct Issued {
    pub handle: int,
    pub id: u64,
}

/// The identifiers handed out when the handles named in `callers` increment a
/// shared counter one after the other, the first of them finding it at `start`.
///
/// Increments of one atomic counter are totally ordered, so every concurrent
/// execution is one such sequence of callers.
pub open spec fn issue_all(start: usize, callers: Seq<int>) -> Seq<Issued>
    decreases callers.len(),
{
    if callers.len() == 0 {
        Seq::empty()
    } else {
        seq![Issued { handle: callers[0], id: spec_call_id(start) }] + issue_all(
            next_reading(start),
            callers.drop_first(),
        )
    }
}

/// The identifiers of `issue_all`, without the handles.
pub open spec fn issued_ids(start: usize, callers: Seq<int>) -> Seq<u64> {
    issue_all(start, callers).map_values(|i: Issued| i.id)
}

/// A counter for a fresh transport, at `FIRST_ID`.
pub(crate) fn new_counter() -> (counter: Arc<AtomicUsize>) {
    Arc::new(AtomicUsize::new(FIRST_ID))
}

/// Another pointer to the same counter, by `Arc::clone`.
#[verifier::external_body]
pub(crate) fn share_counter(counter: &Arc<AtomicUsize>) -> (other: Arc<AtomicUsize>)
    ensures
        other == *counter,
{
    counter.clone()
}

/// Increments the counter atomically and returns the value it held before.
///
/// What that value is depends on the increments that other holders of the
/// counter have made, so nothing is stated of it.
pub(crate) fn advance(counter: &AtomicUsize) -> (reading: usize) {
    counter.fetch_add(1, Ordering::SeqCst)
}

/// The identifier for a counter reading.
#[verifier::when_used_as_spec(spec_call_id)]
pub fn call_id(reading: usize) -> (id: u64)
    ensures
        id == spec_call_id(reading),
{
    reading as u64
}

/// The `i`-th caller gets the identifier `start + i`, whoever it is.
pub proof fn lemma_issue_all_nth(start: usize, callers: Seq<int>, i: int)
    requires
        start + callers.len() <= usize::MAX + 1,
        0 <= i < callers.len(),
    ensures
        issue_all(start, callers).len() == callers.len(),
        issue_all(start, callers)[i].handle == callers[i],
        issue_all(start, callers)[i].id == start + i,
    decreases callers.len(),
{
    lemma_issue_all_len(start, callers);
    if i > 0 {
        let rest = callers.drop_first();
        lemma_issue_all_len(next_reading(start), rest);
        lemma_issue_all_nth(next_reading(start), rest, i - 1);
    }
}

/// Every caller gets an identifier.
pub proof fn lemma_issue_all_len(start: usize, callers: Seq<int>)
    ensures
        issue_all(start, callers).len() == callers.len(),
    decreases callers.len(),
{
    if callers.len() > 0 {
        lemma_issue_all_len(next_reading(start), callers.drop_first());
    }
}

/// However the calls of the handles of one transport interleave, the
/// identifiers that `n` calls hand out are exactly `start, start + 1, ..,
/// start + n - 1`, where `start` is the counter's value before the first of
/// them: each of these numbers is handed out, nothing else is, and none
/// twice. The counter must not wrap during the calls.
pub proof fn lemma_ids_are_consecutive(start: usize, callers: Seq<int>)
    requires
        start + callers.len() <= usize::MAX + 1,
    ensures
        issued_ids(start, callers).len() == callers.len(),
        forall|i: int|
            0 <= i < callers.len() ==> #[trigger] issued_ids(start, callers)[i] == start + i,
        issued_ids(start, callers).no_duplicates(),
        issued_ids(start, callers).to_set() =~= Set::new(
            |id: u64| start <= id < start + callers.len(),
        ),
{
    let ids = issued_ids(start, callers);
    lemma_issue_all_len(start, callers);
    assert forall|i: int| 0 <= i < callers.len() implies #[trigger] ids[i] == start + i by {
        lemma_issue_all_nth(start, callers, i);
    }
    assert forall|id: u64| start <= id < start + callers.len() implies ids.to_set().contains(
        id,
    ) by {
        let i = id - start;
        assert(ids[i] == id);
    }
}

/// The identifiers do not depend on which handle makes which call.
pub proof fn lemma_ids_ignore_callers(start: usize, callers: Seq<int>, others: Seq<int>)
    requires
        callers.len() == others.len(),
    ensures
        issued_ids(start, callers) == issued_ids(start, others),
    decreases callers.len(),
{
    lemma_issue_all_len(start, callers);
    lemma_issue_all_len(start, others);
    if callers.len() > 0 {
        lemma_ids_ignore_callers(next_reading(start), callers.drop_first(), others.drop_first());
        assert(issued_ids(start, callers) =~= seq![spec_call_id(start)] + issued_ids(
            next_reading(start),
            callers.drop_first(),
        ));
        assert(issued_ids(start, others) =~= seq![spec_call_id(start)] + issued_ids(
            next_reading(start),
            others.drop_first(),
        ));
    } else {
        assert(issued_ids(start, callers) =~= issued_ids(start, others));
    }
}

} // verus!
