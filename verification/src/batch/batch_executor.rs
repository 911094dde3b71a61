//! Assembly of one backend request from pending requests, and distribution
//! of the backend's response to their callers.

use crate::api::endpoint::{built, ApiEndpont, GroupingParams};
use crate::reply_channel::{concerns, Handover, Reply, RequestError};
use crate::request::{
    all_data, lemma_items_prefix, lemma_items_push, total_items, RequestClient, RequestHandle,
};
use vstd::prelude::*;

verus! {

/// One caller of a batch: how many data items it contributed, and the way
/// back to it.
#[verifier::reject_recursive_types(TApiEndpoint)]
pub struct BatchedClient<TApiEndpoint: ApiEndpont> {
    pub request_size: usize,
    pub request_handle: RequestHandle<TApiEndpoint::ApiResponseItem>,
}

/// The backend request of one flush, and its callers in the order in which
/// their data items stand in that request.
#[verifier::reject_recursive_types(TApiEndpoint)]
pub struct Batch<TApiEndpoint: ApiEndpont> {
    pub clients: Vec<BatchedClient<TApiEndpoint>>,
    pub api_parameters: TApiEndpoint::ApiRequest,
}

/// The record that a batch keeps of each request, in order.
pub open spec fn batched<E: ApiEndpont>(requests: Seq<RequestClient<E>>) -> Seq<BatchedClient<E>> {
    requests.map_values(
        |request: RequestClient<E>|
            BatchedClient { request_size: request.data.len(), request_handle: request.handle },
    )
}

/// The recorded sizes of a batch's callers, in order.
pub open spec fn request_sizes<E: ApiEndpont>(clients: Seq<BatchedClient<E>>) -> Seq<usize> {
    clients.map_values(|client: BatchedClient<E>| client.request_size)
}

impl<TApiEndpoint: ApiEndpont> Batch<TApiEndpoint> {
    /// The batch is the assembly of `requests` under `params`: one record
    /// per request, in order, and a backend request built from the
    /// concatenation of their data items.
    pub open spec fn assembles(
        self,
        requests: Seq<RequestClient<TApiEndpoint>>,
        params: TApiEndpoint::GroupingParams,
    ) -> bool {
        &&& self.clients@ == batched(requests)
        &&& built(params, all_data(requests), self.api_parameters)
    }

    /// The backend request to issue.
    pub fn api_parameters(&self) -> (api_parameters: &TApiEndpoint::ApiRequest)
        ensures
            *api_parameters == self.api_parameters,
    {
        &self.api_parameters
    }
}

/// Number of data items that `requests` hold.
fn count_items<E: ApiEndpont>(requests: &Vec<RequestClient<E>>) -> (count: usize)
    requires
        total_items(requests@) <= usize::MAX,
    ensures
        count == total_items(requests@),
{
    let mut count: usize = 0;
    let mut i: usize = 0;
    while i < requests.len()
        invariant
            i <= requests@.len(),
            count == total_items(requests@.take(i as int)),
            total_items(requests@) <= usize::MAX,
        decreases requests@.len() - i,
    {
        proof {
            lemma_items_push(requests@.take(i as int), requests@[i as int]);
            assert(requests@.take(i + 1) == requests@.take(i as int).push(requests@[i as int]));
            lemma_items_prefix(requests@, i + 1);
        }
        count = count + requests[i].data.len();
        i = i + 1;
    }
    assert(requests@.take(requests@.len() as int) == requests@);
    count
}

/// Assembles the batch of `request_clients` under `grouping_params`.
///
/// `current_batch_size` is a hint for the number of data items: the list
/// of data items is sized in advance to the hint, but never beyond the
/// number of data items there are. The hint does not change the batch. The
/// number of data items must fit the machine's word.
pub fn batch_requests<TApiEndpoint>(
    current_batch_size: usize,
    request_clients: Vec<RequestClient<TApiEndpoint>>,
    grouping_params: &TApiEndpoint::GroupingParams,
) -> (batch: Batch<TApiEndpoint>) where TApiEndpoint: ApiEndpont
    requires
        total_items(request_clients@) <= usize::MAX,
    ensures
        batch.assembles(request_clients@, *grouping_params),
{
    let needed = count_items(&request_clients);
    let capacity = if current_batch_size <= needed {
        current_batch_size
    } else {
        needed
    };
    let mut inputs: Vec<TApiEndpoint::DataItem> = Vec::with_capacity(capacity);
    let mut clients: Vec<BatchedClient<TApiEndpoint>> = Vec::with_capacity(request_clients.len());
    let ghost requests = request_clients@;

    for client in it: request_clients
        invariant
            it.seq() == requests,
            inputs@ == all_data(requests.take(it.index() as int)),
            clients@ == batched(requests.take(it.index() as int)),
    {
        proof {
            let done = it.index() as int;
            assert(requests.take(done + 1) == requests.take(done).push(client));
            lemma_items_push(requests.take(done), client);
        }
        let request_size = client.data.len();
        let request_handle = client.handle;
        let mut data = client.data;
        inputs.append(&mut data);
        clients.push(BatchedClient { request_size, request_handle });
    }
    assert(requests.take(requests.len() as int) == requests);

    let api_parameters = grouping_params.to_request(inputs);

    Batch { clients, api_parameters }
}

/// Sum of the sizes.
pub open spec fn total_size(sizes: Seq<usize>) -> nat
    decreases sizes.len(),
{
    if sizes.len() == 0 {
        0
    } else {
        total_size(sizes.drop_last()) + sizes.last() as nat
    }
}

/// Where the slice of caller `i` starts: after the slices of all callers
/// before it.
pub open spec fn slice_start(sizes: Seq<usize>, i: int) -> nat {
    total_size(sizes.take(i))
}

/// The slice of `items` owed to caller `i`.
pub open spec fn slice_of<R>(items: Seq<R>, sizes: Seq<usize>, i: int) -> Seq<R> {
    items.subrange(slice_start(sizes, i) as int, slice_start(sizes, i) + sizes[i])
}

/// The slices of `items` owed to the callers, in order.
pub open spec fn slices<R>(items: Seq<R>, sizes: Seq<usize>) -> Seq<Seq<R>> {
    Seq::new(sizes.len(), |i: int| slice_of(items, sizes, i))
}

/// A slice starts where the one before it ends, and the last one ends at
/// the sum of all sizes.
pub proof fn lemma_slice_start_step(sizes: Seq<usize>, i: int)
    requires
        0 <= i < sizes.len(),
    ensures
        slice_start(sizes, i + 1) == slice_start(sizes, i) + sizes[i],
        slice_start(sizes, 0) == 0,
        slice_start(sizes, sizes.len() as int) == total_size(sizes),
{
    assert(sizes.take(i + 1).drop_last() == sizes.take(i));
    assert(sizes.take(sizes.len() as int) == sizes);
}

/// Slices lie in order inside the whole: each ends no later than the sum of
/// all sizes.
pub proof fn lemma_slice_start_bounded(sizes: Seq<usize>, i: int)
    requires
        0 <= i <= sizes.len(),
    ensures
        slice_start(sizes, i) <= total_size(sizes),
    decreases sizes.len() - i,
{
    if i < sizes.len() {
        lemma_slice_start_step(sizes, i);
        lemma_slice_start_bounded(sizes, i + 1);
    } else {
        assert(sizes.take(i) == sizes);
    }
}

/// Cuts `items` into one part per size, in order. `None` when the number of
/// items is not the sum of the sizes.
pub fn split_response<R>(items: Vec<R>, sizes: &Vec<usize>) -> (parts: Option<Vec<Vec<R>>>)
    ensures
        items@.len() == total_size(sizes@) ==> (parts matches Some(cut) && cut@.len()
            == sizes@.len() && forall|i: int|
            0 <= i < sizes@.len() ==> (#[trigger] cut@[i])@ == slice_of(items@, sizes@, i)),
        items@.len() != total_size(sizes@) ==> parts is None,
{
    let count = sizes.len();
    let received = items.len();
    let mut total: usize = 0;
    let mut i: usize = 0;
    while i < count
        invariant
            count == sizes@.len(),
            received == items@.len(),
            i <= count,
            total == slice_start(sizes@, i as int),
        decreases count - i,
    {
        proof {
            lemma_slice_start_step(sizes@, i as int);
            lemma_slice_start_bounded(sizes@, i + 1);
        }
        total = match total.checked_add(sizes[i]) {
            Some(sum) => sum,
            None => {
                return None;
            },
        };
        i = i + 1;
    }
    proof {
        assert(sizes@.take(count as int) == sizes@);
    }
    if received != total {
        return None;
    }
    let mut rest = items;
    let mut parts: Vec<Vec<R>> = Vec::with_capacity(count);
    let mut made: usize = 0;
    while made < count
        invariant
            made <= count,
            parts@.len() == made,
        decreases count - made,
    {
        parts.push(Vec::new());
        made = made + 1;
    }
    let mut left: usize = count;
    while left > 0
        invariant
            count == sizes@.len(),
            left <= count,
            parts@.len() == count,
            rest@ == items@.subrange(0, slice_start(sizes@, left as int) as int),
            slice_start(sizes@, left as int) <= items@.len(),
            forall|j: int| left <= j < count ==> (#[trigger] parts@[j])@ == slice_of(items@, sizes@, j),
        decreases left,
    {
        let size = sizes[left - 1];
        proof {
            lemma_slice_start_step(sizes@, left - 1);
        }
        let at = rest.len() - size;
        let part = rest.split_off(at);
        parts.set(left - 1, part);
        left = left - 1;
    }
    Some(parts)
}

/// Why a batch's callers were failed.
pub enum DispatchFailure<F> {
    /// The backend call failed with this error.
    Backend(F),
    /// The backend answered, with a number of items other than the number
    /// of data items submitted.
    ResponseShapeMismatch { received: usize },
}

/// One reply, ready to be sent.
#[verifier::reject_recursive_types(O)]
pub struct Delivery<O> {
    pub handle: RequestHandle<O>,
    pub reply: Reply<O>,
}

/// What became of one batch: why its callers were failed, if they were, and
/// for each caller in order whether its reply could be handed over.
pub struct DispatchReport<F> {
    pub failure: Option<DispatchFailure<F>>,
    pub outcomes: Vec<Handover>,
}

/// The contents of a reply.
pub open spec fn reply_view<O>(reply: Reply<O>) -> Result<Seq<O>, RequestError> {
    match reply {
        Ok(items) => Ok(items@),
        Err(error) => Err(error),
    }
}

impl<O> Delivery<O> {
    /// The delivery goes to the caller behind `handle` and carries `reply`.
    pub open spec fn carries(
        self,
        handle: RequestHandle<O>,
        reply: Result<Seq<O>, RequestError>,
    ) -> bool {
        self.handle == handle && reply_view(self.reply) == reply
    }
}

/// The response holds exactly one item per submitted data item.
pub open spec fn response_fits<R, F>(response: Result<Vec<R>, F>, sizes: Seq<usize>) -> bool {
    response matches Ok(items) && items@.len() == total_size(sizes)
}

/// The reply owed to caller `i`: its slice of a fitting response, and the
/// generic failure otherwise.
pub open spec fn owed_reply<R, F>(response: Result<Vec<R>, F>, sizes: Seq<usize>, i: int) -> Result<
    Seq<R>,
    RequestError,
> {
    match response {
        Ok(items) => if items@.len() == total_size(sizes) {
            Ok(slice_of(items@, sizes, i))
        } else {
            Err(RequestError::ApiCallFailed)
        },
        Err(_) => Err(RequestError::ApiCallFailed),
    }
}

/// Why the callers are failed, if they are.
pub open spec fn failure_of<R, F>(response: Result<Vec<R>, F>, sizes: Seq<usize>) -> Option<
    DispatchFailure<F>,
> {
    match response {
        Ok(items) => if items@.len() == total_size(sizes) {
            None
        } else {
            Some(DispatchFailure::ResponseShapeMismatch { received: items.len() })
        },
        Err(error) => Some(DispatchFailure::Backend(error)),
    }
}

/// The recorded sizes of the callers, in order.
fn sizes_of<E: ApiEndpont>(clients: &Vec<BatchedClient<E>>) -> (sizes: Vec<usize>)
    ensures
        sizes@ == request_sizes(clients@),
{
    let mut sizes: Vec<usize> = Vec::with_capacity(clients.len());
    let mut i: usize = 0;
    while i < clients.len()
        invariant
            i <= clients@.len(),
            sizes@ == request_sizes(clients@.take(i as int)),
        decreases clients@.len() - i,
    {
        sizes.push(clients[i].request_size);
        i = i + 1;
    }
    sizes
}

/// The generic failure for every caller.
fn fail_all<E: ApiEndpont>(clients: Vec<BatchedClient<E>>) -> (deliveries: Vec<
    Delivery<E::ApiResponseItem>,
>)
    ensures
        deliveries@.len() == clients@.len(),
        forall|i: int|
            0 <= i < clients@.len() ==> (#[trigger] deliveries@[i]).carries(
                clients@[i].request_handle,
                Err(RequestError::ApiCallFailed),
            ),
{
    let mut deliveries: Vec<Delivery<E::ApiResponseItem>> = Vec::with_capacity(clients.len());
    let ghost callers = clients@;
    for client in it: clients
        invariant
            it.seq() == callers,
            deliveries@.len() == it.index(),
            forall|i: int|
                0 <= i < it.index() ==> (#[trigger] deliveries@[i]).carries(
                    callers[i].request_handle,
                    Err(RequestError::ApiCallFailed),
                ),
    {
        deliveries.push(
            Delivery { handle: client.request_handle, reply: Err(RequestError::ApiCallFailed) },
        );
    }
    deliveries
}

/// Part `i` for caller `i`.
fn hand_out<E: ApiEndpont>(
    clients: Vec<BatchedClient<E>>,
    parts: Vec<Vec<E::ApiResponseItem>>,
) -> (deliveries: Vec<Delivery<E::ApiResponseItem>>)
    requires
        parts@.len() == clients@.len(),
    ensures
        deliveries@.len() == clients@.len(),
        forall|i: int|
            0 <= i < clients@.len() ==> (#[trigger] deliveries@[i]).carries(
                clients@[i].request_handle,
                Ok(parts@[i]@),
            ),
{
    let mut deliveries: Vec<Delivery<E::ApiResponseItem>> = Vec::with_capacity(clients.len());
    let mut parts = parts;
    let ghost callers = clients@;
    let ghost cut = parts@;
    for client in it: clients
        invariant
            it.seq() == callers,
            parts@.len() == callers.len(),
            cut.len() == callers.len(),
            deliveries@.len() == it.index(),
            forall|j: int| it.index() <= j < callers.len() ==> parts@[j] == cut[j],
            forall|i: int|
                0 <= i < it.index() ==> (#[trigger] deliveries@[i]).carries(
                    callers[i].request_handle,
                    Ok(cut[i]@),
                ),
    {
        let mut part: Vec<E::ApiResponseItem> = Vec::new();
        parts.set_and_swap(deliveries.len(), &mut part);
        deliveries.push(Delivery { handle: client.request_handle, reply: Ok(part) });
    }
    deliveries
}

/// The reply for each caller of `batch`, in order, for the backend's
/// `response`: its slice when the response holds one item per submitted
/// data item, the generic failure for everyone otherwise. Nothing is sent.
pub fn plan_replies<TApiEndpoint: ApiEndpont, F>(
    response: Result<Vec<TApiEndpoint::ApiResponseItem>, F>,
    batch: Batch<TApiEndpoint>,
) -> (plan: (Vec<Delivery<TApiEndpoint::ApiResponseItem>>, Option<DispatchFailure<F>>))
    ensures
        plan.0@.len() == batch.clients@.len(),
        forall|i: int|
            0 <= i < batch.clients@.len() ==> (#[trigger] plan.0@[i]).carries(
                batch.clients@[i].request_handle,
                owed_reply(response, request_sizes(batch.clients@), i),
            ),
        plan.1 == failure_of(response, request_sizes(batch.clients@)),
{
    let Batch { clients, api_parameters: _ } = batch;
    match response {
        Ok(items) => {
            let received = items.len();
            let sizes = sizes_of(&clients);
            match split_response(items, &sizes) {
                Some(parts) => (hand_out(clients, parts), None),
                None => (
                    fail_all(clients),
                    Some(DispatchFailure::ResponseShapeMismatch { received }),
                ),
            }
        },
        Err(error) => (fail_all(clients), Some(DispatchFailure::Backend(error))),
    }
}

/// Sends each reply to its caller, in order, and says for each what became
/// of it: reply `i` is handed to the channel of handle `i`, and outcome `i`
/// says what that channel returned.
pub fn deliver<O>(deliveries: Vec<Delivery<O>>) -> (outcomes: Vec<Handover>)
    ensures
        outcomes@.len() == deliveries@.len(),
        forall|i: int|
            0 <= i < deliveries@.len() ==> deliveries@[i].handle.replied(
                deliveries@[i].reply,
                #[trigger] outcomes@[i],
            ),
        forall|i: int|
            0 <= i < deliveries@.len() ==> concerns(
                #[trigger] outcomes@[i],
                deliveries@[i].handle.client_id,
            ),
{
    let mut outcomes: Vec<Handover> = Vec::with_capacity(deliveries.len());
    let ghost planned = deliveries@;
    for delivery in it: deliveries
        invariant
            it.seq() == planned,
            outcomes@.len() == it.index(),
            forall|i: int|
                0 <= i < it.index() ==> planned[i].handle.replied(
                    planned[i].reply,
                    #[trigger] outcomes@[i],
                ),
            forall|i: int|
                0 <= i < it.index() ==> concerns(
                    #[trigger] outcomes@[i],
                    planned[i].handle.client_id,
                ),
    {
        let Delivery { handle, reply } = delivery;
        outcomes.push(handle.reply(reply));
    }
    outcomes
}

/// `outcome` is what became of a reply with the contents `owed` that was
/// sent to the caller behind `handle`.
pub open spec fn answered<O>(
    handle: RequestHandle<O>,
    owed: Result<Seq<O>, RequestError>,
    outcome: Handover,
) -> bool {
    exists|reply: Reply<O>| reply_view(reply) == owed && #[trigger] handle.replied(reply, outcome)
}

/// Gives every caller of `batch` its reply for the backend's `response`:
/// caller `i` is sent the reply owed to it, its slice of a response that
/// holds one item per submitted data item and the generic failure
/// otherwise, and outcome `i` says what became of that reply. Every
/// caller is sent one reply, also when another caller has stopped waiting.
/// The backend is not called again, whatever the response.
pub fn distribute_response<TApiEndpoint: ApiEndpont, F>(
    response: Result<Vec<TApiEndpoint::ApiResponseItem>, F>,
    batch: Batch<TApiEndpoint>,
) -> (report: DispatchReport<F>)
    ensures
        report.failure == failure_of(response, request_sizes(batch.clients@)),
        report.outcomes@.len() == batch.clients@.len(),
        forall|i: int|
            0 <= i < batch.clients@.len() ==> answered(
                batch.clients@[i].request_handle,
                owed_reply(response, request_sizes(batch.clients@), i),
                #[trigger] report.outcomes@[i],
            ),
        forall|i: int|
            0 <= i < batch.clients@.len() ==> concerns(
                #[trigger] report.outcomes@[i],
                batch.clients@[i].request_handle.client_id,
            ),
{
    let (deliveries, failure) = plan_replies(response, batch);
    let outcomes = deliver(deliveries);
    assert forall|i: int| 0 <= i < batch.clients@.len() implies answered(
        batch.clients@[i].request_handle,
        owed_reply(response, request_sizes(batch.clients@), i),
        #[trigger] outcomes@[i],
    ) by {
        let delivery = deliveries@[i];
        assert(delivery.handle.replied(delivery.reply, outcomes@[i]));
    }
    DispatchReport { failure, outcomes }
}

/// The parts of a sequence of sequences, one after the other.
pub open spec fn joined<R>(parts: Seq<Seq<R>>) -> Seq<R>
    decreases parts.len(),
{
    if parts.len() == 0 {
        Seq::empty()
    } else {
        joined(parts.drop_last()) + parts.last()
    }
}

/// Each caller's slice is as long as the caller's request and holds the
/// response items at the positions of that request: the slice of caller `i`
/// starts where the sizes of the callers before it end.
pub proof fn lemma_slice_sized_and_aligned<R>(items: Seq<R>, sizes: Seq<usize>, i: int)
    requires
        items.len() == total_size(sizes),
        0 <= i < sizes.len(),
    ensures
        slice_start(sizes, i) + sizes[i] <= items.len(),
        slice_of(items, sizes, i).len() == sizes[i],
        forall|k: int|
            0 <= k < sizes[i] ==> #[trigger] slice_of(items, sizes, i)[k] == items[slice_start(
                sizes,
                i,
            ) + k],
{
    lemma_slice_start_step(sizes, i);
    lemma_slice_start_bounded(sizes, i + 1);
}

/// The data items of request `i` stand in the concatenation of all data at
/// the positions of its slice: positions in the backend request and
/// positions in the response answer one another.
pub proof fn lemma_data_position<E: ApiEndpont>(requests: Seq<RequestClient<E>>, i: int)
    requires
        0 <= i < requests.len(),
    ensures
        total_size(request_sizes(batched(requests))) == total_items(requests),
        slice_of(all_data(requests), request_sizes(batched(requests)), i) == requests[i].data@,
    decreases requests.len(),
{
    let sizes = request_sizes(batched(requests));
    let front = requests.drop_last();
    let front_sizes = request_sizes(batched(front));
    assert(sizes.drop_last() == front_sizes);
    lemma_total_size_is_total_items(front);
    crate::request::lemma_all_data_len(front);
    if i < requests.len() - 1 {
        lemma_data_position(front, i);
        assert(sizes.take(i) == front_sizes.take(i));
        lemma_slice_start_step(front_sizes, i);
        lemma_slice_start_bounded(front_sizes, i + 1);
    }
}

/// The recorded sizes of a batch add up to the data items of its requests.
pub proof fn lemma_total_size_is_total_items<E: ApiEndpont>(requests: Seq<RequestClient<E>>)
    ensures
        total_size(request_sizes(batched(requests))) == total_items(requests),
    decreases requests.len(),
{
    if requests.len() > 0 {
        lemma_total_size_is_total_items(requests.drop_last());
        assert(request_sizes(batched(requests)).drop_last() == request_sizes(
            batched(requests.drop_last()),
        ));
    }
}

/// The first `count` slices, one after the other, are the items up to the
/// start of slice `count`.
proof fn lemma_slices_join_prefix<R>(items: Seq<R>, sizes: Seq<usize>, count: int)
    requires
        items.len() == total_size(sizes),
        0 <= count <= sizes.len(),
    ensures
        joined(slices(items, sizes).take(count)) == items.subrange(
            0,
            slice_start(sizes, count) as int,
        ),
    decreases count,
{
    lemma_slice_start_bounded(sizes, count);
    if count > 0 {
        lemma_slices_join_prefix(items, sizes, count - 1);
        lemma_slice_start_step(sizes, count - 1);
        lemma_slice_start_bounded(sizes, count - 1);
        let all = slices(items, sizes);
        assert(all.take(count).drop_last() == all.take(count - 1));
    }
}

/// The slices handed to the callers, one after the other in the order of
/// the callers, are the backend's response.
pub proof fn lemma_slices_join<R>(items: Seq<R>, sizes: Seq<usize>)
    requires
        items.len() == total_size(sizes),
    ensures
        joined(slices(items, sizes)) == items,
        forall|i: int|
            0 <= i < sizes.len() ==> #[trigger] slices(items, sizes)[i] == slice_of(
                items,
                sizes,
                i,
            ),
{
    lemma_slices_join_prefix(items, sizes, sizes.len() as int);
    lemma_slice_start_step_end(sizes);
    assert(slices(items, sizes).take(sizes.len() as int) == slices(items, sizes));
}

/// The slice after the last one would start at the sum of all sizes.
proof fn lemma_slice_start_step_end(sizes: Seq<usize>)
    ensures
        slice_start(sizes, sizes.len() as int) == total_size(sizes),
{
    assert(sizes.take(sizes.len() as int) == sizes);
}

/// The successful replies owed for a fitting response, one after the other
/// in the order of the callers, are that response.
pub proof fn lemma_owed_replies_join<R, F>(response: Result<Vec<R>, F>, sizes: Seq<usize>)
    requires
        response_fits(response, sizes),
    ensures
        forall|i: int|
            0 <= i < sizes.len() ==> (#[trigger] owed_reply(response, sizes, i) matches Ok(
                slice,
            ) && slice == slices(response->Ok_0@, sizes)[i]),
        joined(slices(response->Ok_0@, sizes)) == response->Ok_0@,
{
    lemma_slices_join(response->Ok_0@, sizes);
}

/// Every caller of a batch is owed the same kind of reply: its slice when
/// the response fits, and the generic failure when the backend failed or
/// the response does not fit. A failure is reported exactly then.
pub proof fn lemma_all_or_none<R, F>(response: Result<Vec<R>, F>, sizes: Seq<usize>, i: int)
    ensures
        response is Err ==> !response_fits(response, sizes),
        response_fits(response, sizes) ==> owed_reply(response, sizes, i) is Ok,
        response_fits(response, sizes) ==> failure_of(response, sizes) is None,
        !response_fits(response, sizes) ==> (owed_reply(response, sizes, i) matches Err(error)
            && error == RequestError::ApiCallFailed),
        !response_fits(response, sizes) ==> failure_of(response, sizes) is Some,
{
}

} // verus!
