//! What holds of the manager and its workers together.
//!
//! The manager gives every grouping key a worker of its own, and every
//! worker starts with an empty store. The laws below follow requests from
//! the manager's routing to the backend calls that their workers cause, one
//! call per emitted batch.

use crate::api::endpoint::{lawful_keys, ApiEndpont};
use crate::batch::batch_executor::{
    batched, lemma_data_position, lemma_slice_sized_and_aligned, owed_reply, request_sizes,
    response_fits, slice_start,
};
use crate::batch::batch_manager::{
    keys_after_all, lemma_distinct_keys_one_worker_each, lemma_equal_keys_one_worker,
    pairwise_distinct, pairwise_equal, slot_of,
};
use crate::batch::batch_worker::WorkerEvent;
use crate::batch::request_store::StoreView;
use crate::batch::worker_trace::{
    arrivals, batches, lemma_fitting_requests_one_batch, lemma_single_request_single_batch,
};
use crate::request::{all_data, total_items, RequestClient};
use vstd::prelude::*;

verus! {

/// Requests with pairwise equal keys whose data items fit the bound
/// together are served by one backend call. The manager routes every one of
/// them to the worker of the first; that worker, empty when the first
/// arrives, emits nothing while they arrive, and its next flush emits one
/// batch that holds all of them in order.
pub proof fn lemma_equal_keys_one_call<E: ApiEndpont>(
    keys: Seq<E::GroupingParams>,
    arriving: Seq<E::GroupingParams>,
    requests: Seq<RequestClient<E>>,
    max_batch_size: nat,
    flush: WorkerEvent<E>,
    i: int,
)
    requires
        lawful_keys::<E::GroupingParams>(),
        pairwise_equal(arriving),
        arriving.len() == requests.len(),
        total_items(requests) <= max_batch_size,
        !(flush is Message),
        0 <= i < requests.len(),
    ensures
        slot_of(keys_after_all(keys, arriving.take(i)), arriving[i]) == slot_of(keys, arriving[0]),
        batches(StoreView::empty(max_batch_size), arrivals(requests)) == Seq::<
            Seq<RequestClient<E>>,
        >::empty(),
        batches(StoreView::empty(max_batch_size), arrivals(requests).push(flush))
            == seq![requests],
{
    lemma_equal_keys_one_worker(keys, arriving, i);
    let store = StoreView::<E>::empty(max_batch_size);
    lemma_fitting_requests_one_batch(store, requests, flush);
    assert(store.pending + requests == requests);
}

/// Requests with pairwise different keys are served by one backend call
/// each. From a manager that has seen no key, the request at position `i`
/// starts the worker of slot `i` and is the only one routed there; that
/// worker's next flush emits one batch, which holds this request alone,
/// whatever its size.
pub proof fn lemma_distinct_keys_one_call_each<E: ApiEndpont>(
    arriving: Seq<E::GroupingParams>,
    requests: Seq<RequestClient<E>>,
    max_batch_size: nat,
    flush: WorkerEvent<E>,
    i: int,
    j: int,
)
    requires
        lawful_keys::<E::GroupingParams>(),
        pairwise_distinct(arriving),
        arriving.len() == requests.len(),
        !(flush is Message),
        0 <= i < requests.len(),
        0 <= j < requests.len(),
    ensures
        slot_of(keys_after_all(Seq::empty(), arriving.take(i)), arriving[i]) == i,
        i != j ==> slot_of(arriving, arriving[i]) != slot_of(arriving, arriving[j]),
        batches(
            StoreView::empty(max_batch_size),
            seq![arrivals(requests)[i], flush],
        ) == seq![seq![requests[i]]],
{
    lemma_distinct_keys_one_worker_each(arriving, i);
    lemma_distinct_keys_one_worker_each(arriving, j);
    lemma_single_request_single_batch(max_batch_size, requests[i], flush);
}

/// Every caller is answered item by item. When the backend's response has
/// one item per data item of the batch, the reply owed to the caller at
/// position `i` has one item per data item of that caller's request, and
/// its item `k` is the response item at the very position at which the
/// request's data item `k` stands in the backend request.
pub proof fn lemma_reply_answers_request<E: ApiEndpont, F>(
    requests: Seq<RequestClient<E>>,
    response: Result<Vec<E::ApiResponseItem>, F>,
    i: int,
    k: int,
)
    requires
        response matches Ok(items) && items@.len() == total_items(requests),
        0 <= i < requests.len(),
        0 <= k < requests[i].data@.len(),
    ensures
        response_fits(response, request_sizes(batched(requests))),
        ({
            let sizes = request_sizes(batched(requests));
            let at = slice_start(sizes, i) + k;
            &&& owed_reply(response, sizes, i) matches Ok(slice)
            &&& slice.len() == requests[i].data@.len()
            &&& 0 <= at < all_data(requests).len()
            &&& all_data(requests)[at] == requests[i].data@[k]
            &&& slice[k] == response->Ok_0@[at]
        }),
{
    let sizes = request_sizes(batched(requests));
    lemma_data_position(requests, i);
    lemma_slice_sized_and_aligned(response->Ok_0@, sizes, i);
    crate::request::lemma_all_data_len(requests);
}

} // verus!
