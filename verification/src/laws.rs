use vstd::prelude::*;

use crate::event::WatchEvent;
use crate::paths::parent_path;
use crate::watcher::{
    admits, filename_request, filter_after_filename_watch, filter_after_subtree_watch,
    poll_result, queue_after_delivery, queue_after_poll, raw_admitted, some_path_in_filter,
    subtree_request,
};

verus! {

/// The queue after a run of raw deliveries, taken in arrival order.
pub open spec fn queue_after_deliveries(
    queue: Seq<WatchEvent>,
    filter: Seq<Seq<char>>,
    raws: Seq<Option<WatchEvent>>,
) -> Seq<WatchEvent>
    decreases raws.len(),
{
    if raws.len() == 0 {
        queue
    } else {
        queue_after_deliveries(queue_after_delivery(queue, filter, raws[0]), filter, raws.drop_first())
    }
}

/// The queue after a number of polls.
pub open spec fn queue_after_polls(queue: Seq<WatchEvent>, n: nat) -> Seq<WatchEvent>
    decreases n,
{
    if n == 0 {
        queue
    } else {
        queue_after_poll(queue_after_polls(queue, (n - 1) as nat))
    }
}

/// How many readiness signals a run of raw deliveries owes: one per
/// admitted delivery, none per discarded one.
pub open spec fn signals_owed(filter: Seq<Seq<char>>, raws: Seq<Option<WatchEvent>>) -> nat
    decreases raws.len(),
{
    if raws.len() == 0 {
        0
    } else {
        (if raw_admitted(filter, raws[0]) {
            1nat
        } else {
            0nat
        }) + signals_owed(filter, raws.drop_first())
    }
}

/// Deliveries whose events are all admitted append them to the queue in
/// exactly their arrival order.
pub proof fn lemma_admitted_deliveries_append(
    queue: Seq<WatchEvent>,
    filter: Seq<Seq<char>>,
    events: Seq<WatchEvent>,
)
    requires
        forall|i: int| 0 <= i < events.len() ==> #[trigger] admits(filter, events[i]),
    ensures
        queue_after_deliveries(
            queue,
            filter,
            events.map_values(|e: WatchEvent| Option::Some(e)),
        ) == queue + events,
    decreases events.len(),
{
    let raws = events.map_values(|e: WatchEvent| Option::Some(e));
    if events.len() == 0 {
        assert(queue + events =~= queue);
    } else {
        assert(raws[0] == Option::Some(events[0]));
        assert(admits(filter, events[0]));
        assert(queue_after_delivery(queue, filter, raws[0]) == queue.push(events[0]));
        let rest = events.drop_first();
        assert(forall|i: int| 0 <= i < rest.len() ==> #[trigger] admits(filter, rest[i])) by {
            assert(forall|i: int| 0 <= i < rest.len() ==> rest[i] == events[i + 1]);
        }
        lemma_admitted_deliveries_append(queue.push(events[0]), filter, rest);
        assert(raws.drop_first() =~= rest.map_values(|e: WatchEvent| Option::Some(e)));
        assert(queue.push(events[0]) + rest =~= queue + events);
    }
}

/// Polls drain the queue oldest first: after `n` polls the first `n`
/// events are gone, the next poll returns the event at position `n`, and
/// once everything is drained a poll returns nothing.
pub proof fn lemma_polls_in_order(queue: Seq<WatchEvent>, n: int)
    requires
        0 <= n <= queue.len(),
    ensures
        queue_after_polls(queue, n as nat) == queue.skip(n),
        n < queue.len() ==> poll_result(queue_after_polls(queue, n as nat)) == Option::Some(
            queue[n],
        ),
        n == queue.len() ==> poll_result(queue_after_polls(queue, n as nat)) is None,
    decreases n,
{
    if n == 0 {
        assert(queue.skip(0) =~= queue);
    } else {
        lemma_polls_in_order(queue, n - 1);
        assert(queue.skip(n - 1).len() > 0);
        assert(queue_after_poll(queue.skip(n - 1)) =~= queue.skip(n));
    }
}

/// FIFO order: a run of admitted events entering an empty queue comes back
/// through successive polls in exactly its arrival order, one event per
/// poll, and after the last of them the poll is empty.
pub proof fn lemma_fifo_order(filter: Seq<Seq<char>>, events: Seq<WatchEvent>, k: int)
    requires
        forall|i: int| 0 <= i < events.len() ==> #[trigger] admits(filter, events[i]),
        0 <= k <= events.len(),
    ensures
        k < events.len() ==> poll_result(
            queue_after_polls(
                queue_after_deliveries(
                    Seq::empty(),
                    filter,
                    events.map_values(|e: WatchEvent| Option::Some(e)),
                ),
                k as nat,
            ),
        ) == Option::Some(events[k]),
        k == events.len() ==> poll_result(
            queue_after_polls(
                queue_after_deliveries(
                    Seq::empty(),
                    filter,
                    events.map_values(|e: WatchEvent| Option::Some(e)),
                ),
                k as nat,
            ),
        ) is None,
{
    lemma_admitted_deliveries_append(Seq::empty(), filter, events);
    assert(Seq::<WatchEvent>::empty() + events =~= events);
    lemma_polls_in_order(events, k);
}

/// Filter admission: an empty filter admits every event; a non-empty one
/// admits an event exactly when one of its affected paths stands in the
/// filter; a delivery error is never admitted.
pub proof fn lemma_filter_admission(filter: Seq<Seq<char>>, event: WatchEvent)
    ensures
        filter.len() == 0 ==> admits(filter, event),
        filter.len() > 0 ==> (admits(filter, event) <==> some_path_in_filter(
            filter,
            event.paths_view(),
        )),
        !raw_admitted(filter, Option::<WatchEvent>::None),
{
}

/// Filter monotonicity: a whole-subtree watch after a filename watch
/// leaves the filter exactly as the filename watch made it, so an event
/// touching none of its entries is still excluded.
pub proof fn lemma_filter_monotonic(
    filter: Seq<Seq<char>>,
    filename: Seq<char>,
    event: WatchEvent,
)
    ensures
        filter_after_subtree_watch(filter_after_filename_watch(filter, filename))
            == filter_after_filename_watch(filter, filename),
        parent_path(filename) is Some && !some_path_in_filter(
            filter_after_filename_watch(filter, filename),
            event.paths_view(),
        ) ==> !admits(
            filter_after_subtree_watch(filter_after_filename_watch(filter, filename)),
            event,
        ),
{
}

/// Filename-watch fallback: a filename watch on a path with no parent
/// directory asks for exactly the whole-subtree subscription and leaves
/// the filter as it was.
pub proof fn lemma_filename_watch_fallback(filter: Seq<Seq<char>>, path: Seq<char>)
    ensures
        parent_path(path) is None ==> filename_request(path) == subtree_request(path),
        parent_path(path) is None ==> filter_after_filename_watch(filter, path) == filter,
{
}

/// Non-blocking poll: an empty queue polls as nothing and stays empty;
/// the poll is total, so it never fails and never waits for a producer.
pub proof fn lemma_poll_on_empty(queue: Seq<WatchEvent>)
    ensures
        queue.len() == 0 ==> poll_result(queue) is None,
        queue.len() == 0 ==> queue_after_poll(queue) == queue,
{
}

/// Count consistency: the queue grows by exactly one event per admitted
/// delivery, stays as it is on a discarded one, and shrinks by exactly one
/// per successful poll — so at any quiescent point its length is the
/// number of admitted-but-not-yet-polled events.
pub proof fn lemma_count_consistency(
    queue: Seq<WatchEvent>,
    filter: Seq<Seq<char>>,
    raw: Option<WatchEvent>,
)
    ensures
        raw_admitted(filter, raw) ==> queue_after_delivery(queue, filter, raw).len() == queue.len()
            + 1,
        !raw_admitted(filter, raw) ==> queue_after_delivery(queue, filter, raw) == queue,
        queue.len() > 0 ==> queue_after_poll(queue).len() == queue.len() - 1,
{
}

/// Signal cardinality: over any run of raw deliveries, the readiness
/// signals owed are exactly the events the run added to the queue — one
/// per admitted event, none per discarded one.
pub proof fn lemma_signal_cardinality(
    queue: Seq<WatchEvent>,
    filter: Seq<Seq<char>>,
    raws: Seq<Option<WatchEvent>>,
)
    ensures
        queue_after_deliveries(queue, filter, raws).len() == queue.len() + signals_owed(
            filter,
            raws,
        ),
    decreases raws.len(),
{
    if raws.len() > 0 {
        lemma_signal_cardinality(queue_after_delivery(queue, filter, raws[0]), filter, raws.drop_first());
    }
}

} // verus!
