//! What a worker does over a whole run of events, and what holds of every
//! run.
//!
//! A run is a sequence of events handled one after the other from some
//! store, up to and including the first event that stops the worker. Its
//! trace is the sequence of batches it emits.

use crate::api::endpoint::ApiEndpont;
use crate::batch::batch_executor::joined;
use crate::batch::batch_worker::{react, BatchWorkerMessage, Reaction, WorkerEvent};
use crate::batch::request_store::StoreView;
use crate::request::{lemma_items_concat, total_items, RequestClient};
use vstd::prelude::*;

verus! {

/// The batch that a reaction emits: none when nothing was flushed.
pub open spec fn emitted<E: ApiEndpont>(reaction: Reaction<E>) -> Seq<Seq<RequestClient<E>>> {
    if reaction.flushed.len() > 0 {
        seq![reaction.flushed]
    } else {
        Seq::empty()
    }
}

/// The batches that a worker emits when it handles `events` from `store`,
/// each batch as the requests it holds. One backend call is made per batch.
pub open spec fn batches<E: ApiEndpont>(store: StoreView<E>, events: Seq<WorkerEvent<E>>) -> Seq<
    Seq<RequestClient<E>>,
>
    decreases events.len(),
{
    if events.len() == 0 {
        Seq::empty()
    } else {
        let reaction = react(store, events.first());
        if reaction.stop {
            emitted(reaction)
        } else {
            emitted(reaction) + batches(reaction.store, events.drop_first())
        }
    }
}

/// The store that is left when a worker has handled `events` from `store`.
pub open spec fn store_after<E: ApiEndpont>(
    store: StoreView<E>,
    events: Seq<WorkerEvent<E>>,
) -> StoreView<E>
    decreases events.len(),
{
    if events.len() == 0 {
        store
    } else {
        let reaction = react(store, events.first());
        if reaction.stop {
            reaction.store
        } else {
            store_after(reaction.store, events.drop_first())
        }
    }
}

/// The requests that a worker takes in over `events`, in order: those that
/// arrive before the worker stops.
pub open spec fn accepted<E: ApiEndpont>(events: Seq<WorkerEvent<E>>) -> Seq<RequestClient<E>>
    decreases events.len(),
{
    if events.len() == 0 {
        Seq::empty()
    } else {
        match events.first() {
            WorkerEvent::Message(BatchWorkerMessage::NewRequest(req)) => seq![req] + accepted(
                events.drop_first(),
            ),
            WorkerEvent::TimerElapsed => accepted(events.drop_first()),
            WorkerEvent::QueueClosed => Seq::empty(),
            WorkerEvent::Cancelled => Seq::empty(),
        }
    }
}

/// Whether the worker stops somewhere in `events`.
pub open spec fn shuts_down<E: ApiEndpont>(events: Seq<WorkerEvent<E>>) -> bool {
    exists|i: int|
        0 <= i < events.len() && (#[trigger] events[i] is QueueClosed || events[i] is Cancelled)
}

/// The arrival of each of `requests`, in order.
pub open spec fn arrivals<E: ApiEndpont>(requests: Seq<RequestClient<E>>) -> Seq<WorkerEvent<E>> {
    requests.map_values(
        |req: RequestClient<E>| WorkerEvent::Message(BatchWorkerMessage::NewRequest(req)),
    )
}

/// Joining distributes over concatenation.
pub proof fn lemma_joined_concat<R>(first: Seq<Seq<R>>, second: Seq<Seq<R>>)
    ensures
        joined(first + second) == joined(first) + joined(second),
    decreases second.len(),
{
    if second.len() > 0 {
        lemma_joined_concat(first, second.drop_last());
        assert((first + second).drop_last() == first + second.drop_last());
    }
}

/// What a reaction emits holds exactly what it flushed.
pub proof fn lemma_emitted_joined<E: ApiEndpont>(reaction: Reaction<E>)
    ensures
        joined(emitted(reaction)) == reaction.flushed,
{
    if reaction.flushed.len() > 0 {
        let front = emitted(reaction).drop_last();
        assert(joined(emitted(reaction)) == joined(front) + reaction.flushed);
    }
}

/// A run of one event emits what that event emits.
pub proof fn lemma_batches_of_one_event<E: ApiEndpont>(store: StoreView<E>, event: WorkerEvent<E>)
    ensures
        batches(store, seq![event]) == emitted(react(store, event)),
{
    let rest = seq![event].drop_first();
    assert(batches(react(store, event).store, rest) == Seq::<Seq<RequestClient<E>>>::empty());
}

/// No request is lost, doubled or reordered: the requests of all batches of
/// a run, followed by what is still pending at its end, are what was
/// pending at its start followed by the requests taken in, in order.
pub proof fn lemma_every_request_once<E: ApiEndpont>(
    store: StoreView<E>,
    events: Seq<WorkerEvent<E>>,
)
    ensures
        joined(batches(store, events)) + store_after(store, events).pending == store.pending
            + accepted(events),
    decreases events.len(),
{
    if events.len() > 0 {
        let reaction = react(store, events.first());
        let rest = events.drop_first();
        lemma_emitted_joined(reaction);
        if !reaction.stop {
            lemma_every_request_once(reaction.store, rest);
            lemma_joined_concat(emitted(reaction), batches(reaction.store, rest));
        }
    }
}

/// A worker that stops leaves nothing pending.
pub proof fn lemma_shutdown_leaves_nothing<E: ApiEndpont>(
    store: StoreView<E>,
    events: Seq<WorkerEvent<E>>,
)
    requires
        shuts_down(events),
    ensures
        store_after(store, events).pending.len() == 0,
    decreases events.len(),
{
    let stop = choose|i: int|
        0 <= i < events.len() && (#[trigger] events[i] is QueueClosed || events[i] is Cancelled);
    let reaction = react(store, events.first());
    if !reaction.stop {
        assert(events.drop_first()[stop - 1] == events[stop]);
        lemma_shutdown_leaves_nothing(reaction.store, events.drop_first());
    }
}

/// Every request that a worker takes in before it stops is dispatched in
/// exactly one batch, in the order of arrival.
pub proof fn lemma_shutdown_dispatches_everything<E: ApiEndpont>(
    store: StoreView<E>,
    events: Seq<WorkerEvent<E>>,
)
    requires
        shuts_down(events),
    ensures
        joined(batches(store, events)) == store.pending + accepted(events),
{
    lemma_every_request_once(store, events);
    lemma_shutdown_leaves_nothing(store, events);
}

/// Requests that fit together leave in one batch: while the data items
/// pending and those of `requests` do not exceed the bound, the arrival of
/// `requests` emits nothing, and the flush that follows emits one batch
/// with everything, in order. With nothing pending and no requests there is
/// no batch.
pub proof fn lemma_fitting_requests_one_batch<E: ApiEndpont>(
    store: StoreView<E>,
    requests: Seq<RequestClient<E>>,
    last: WorkerEvent<E>,
)
    requires
        total_items(store.pending) + total_items(requests) <= store.max_batch_size,
        !(last is Message),
    ensures
        batches(store, arrivals(requests)) == Seq::<Seq<RequestClient<E>>>::empty(),
        store_after(store, arrivals(requests)).pending == store.pending + requests,
        batches(store, arrivals(requests).push(last)) == if (store.pending + requests).len() > 0 {
            seq![store.pending + requests]
        } else {
            Seq::empty()
        },
    decreases requests.len(),
{
    let events = arrivals(requests).push(last);
    if requests.len() == 0 {
        assert(events == seq![last]);
        lemma_batches_of_one_event(store, last);
    } else {
        let req = requests.first();
        let rest = requests.drop_first();
        assert(requests == seq![req] + rest);
        lemma_items_concat(seq![req], rest);
        assert(total_items(seq![req].drop_last()) == 0);
        let next = store.with(req);
        crate::request::lemma_items_push(store.pending, req);
        lemma_fitting_requests_one_batch(next, rest, last);
        assert(arrivals(requests).drop_first() == arrivals(rest));
        assert(events.drop_first() == arrivals(rest).push(last));
    }
}

/// A request larger than the bound is dispatched all the same: its arrival
/// flushes what was pending and parks the request alone, and the next flush
/// emits it as a batch of its own.
pub proof fn lemma_oversized_request_is_dispatched<E: ApiEndpont>(
    store: StoreView<E>,
    req: RequestClient<E>,
    later: WorkerEvent<E>,
)
    requires
        req.size() > store.max_batch_size,
        !(later is Message),
    ensures
        ({
            let arrival = react(store, WorkerEvent::Message(BatchWorkerMessage::NewRequest(req)));
            &&& arrival.flushed == store.pending
            &&& arrival.store.pending == seq![req]
            &&& react(arrival.store, later).flushed == seq![req]
        }),
{
}

/// No request waits forever: a request that arrives is pending afterwards,
/// as the last one, and whatever is pending leaves with the next flush.
pub proof fn lemma_arrival_then_flush<E: ApiEndpont>(
    store: StoreView<E>,
    req: RequestClient<E>,
    later: WorkerEvent<E>,
)
    requires
        !(later is Message),
    ensures
        ({
            let arrival = react(store, WorkerEvent::Message(BatchWorkerMessage::NewRequest(req)));
            &&& arrival.store.pending.len() > 0
            &&& arrival.store.pending.last() == req
            &&& react(arrival.store, later).flushed == arrival.store.pending
            &&& react(arrival.store, later).store.pending.len() == 0
        }),
{
}

/// A worker that sees one request and then a flush emits exactly one
/// batch, which holds that request alone.
pub proof fn lemma_single_request_single_batch<E: ApiEndpont>(
    max_batch_size: nat,
    req: RequestClient<E>,
    later: WorkerEvent<E>,
)
    requires
        !(later is Message),
    ensures
        batches(
            StoreView::empty(max_batch_size),
            seq![WorkerEvent::Message(BatchWorkerMessage::NewRequest(req)), later],
        ) == seq![seq![req]],
{
    let store = StoreView::<E>::empty(max_batch_size);
    let events = seq![WorkerEvent::Message(BatchWorkerMessage::NewRequest(req)), later];
    let arrival = react(store, events.first());
    assert(events.drop_first() == seq![later]);
    lemma_batches_of_one_event(arrival.store, later);
}

/// A flush of an empty store does nothing: no batch, and the store as it
/// was.
pub proof fn lemma_idle_flush_is_noop<E: ApiEndpont>(store: StoreView<E>, event: WorkerEvent<E>)
    requires
        store.pending.len() == 0,
        !(event is Message),
    ensures
        react(store, event).flushed.len() == 0,
        react(store, event).store == store,
        batches(store, seq![event]) == Seq::<Seq<RequestClient<E>>>::empty(),
{
    assert(store.pending == Seq::<RequestClient<E>>::empty());
    lemma_batches_of_one_event(store, event);
}

/// A worker that takes in no request emits no batch, however many timers
/// elapse before it stops.
pub proof fn lemma_no_requests_no_batches<E: ApiEndpont>(
    store: StoreView<E>,
    events: Seq<WorkerEvent<E>>,
)
    requires
        store.pending.len() == 0,
        accepted(events).len() == 0,
    ensures
        batches(store, events) == Seq::<Seq<RequestClient<E>>>::empty(),
    decreases events.len(),
{
    if events.len() > 0 {
        match events.first() {
            WorkerEvent::Message(_) => {},
            WorkerEvent::TimerElapsed => {
                lemma_idle_flush_is_noop(store, events.first());
                lemma_no_requests_no_batches(store, events.drop_first());
            },
            WorkerEvent::QueueClosed | WorkerEvent::Cancelled => {
                lemma_idle_flush_is_noop(store, events.first());
            },
        }
    }
}

} // verus!
