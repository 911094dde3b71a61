//! A caller's request: its data items and the way back to the caller.

use crate::api::endpoint::ApiEndpont;
use crate::reply_channel::{
    concerns, handover, handover_of, paired, sent, Handover, Reply, RequestError,
};
use tokio::sync::oneshot::{Receiver, Sender};
use uuid::Uuid;
use vstd::prelude::*;

verus! {

/// The way back to one caller: the sending end of its reply channel and the
/// caller's id. A reply consumes the handle, so a handle carries at most one
/// reply.
#[verifier::reject_recursive_types(O)]
pub struct RequestHandle<O> {
    pub reply_handle: Sender<Reply<O>>,
    pub client_id: Uuid,
}

/// One accepted request, owned by one worker at a time.
#[verifier::reject_recursive_types(TApiEndpoint)]
pub struct RequestClient<TApiEndpoint: ApiEndpont> {
    pub handle: RequestHandle<TApiEndpoint::ApiResponseItem>,
    pub data: Vec<TApiEndpoint::DataItem>,
}

impl<TApiEndpoint: ApiEndpont> RequestClient<TApiEndpoint> {
    /// Number of data items of the request.
    pub open spec fn size(self) -> nat {
        self.data@.len()
    }

    /// A request with `data` for the caller `client_id`, and the receiving
    /// end on which that caller awaits its reply: the other end of the
    /// channel whose sending end the request's handle holds.
    pub fn new(data: Vec<TApiEndpoint::DataItem>, client_id: Uuid) -> (made: (
        Receiver<Reply<TApiEndpoint::ApiResponseItem>>,
        Self,
    ))
        ensures
            made.1.data == data,
            made.1.handle.client_id == client_id,
            paired(made.1.handle.reply_handle, made.0),
    {
        let (sender, receiver) = tokio::sync::oneshot::channel();
        let client = RequestClient { handle: RequestHandle { client_id, reply_handle: sender }, data };
        (receiver, client)
    }
}

impl<O> RequestHandle<O> {
    /// `outcome` is what becomes of `reply` when it is sent to the caller
    /// behind this handle: `reply` is handed to the sending end of the
    /// handle's channel, and the outcome says what the channel returned,
    /// under the caller's id.
    pub open spec fn replied(self, reply: Reply<O>, outcome: Handover) -> bool {
        exists|returned: Result<(), Reply<O>>|
            #[trigger] sent(self.reply_handle, reply, returned) && outcome == handover_of(
                self.client_id,
                returned,
            )
    }

    /// Sends `reply` to the caller. `Err` names the caller when it has
    /// stopped waiting; the reply is then dropped.
    pub fn reply(self, reply: Reply<O>) -> (outcome: Handover)
        ensures
            self.replied(reply, outcome),
            concerns(outcome, self.client_id),
    {
        let client_id = self.client_id;
        let returned = self.reply_handle.send(reply);
        assert(sent(self.reply_handle, reply, returned));
        handover(client_id, returned)
    }

    /// Sends the caller its slice of the response.
    pub fn reply_with_result(self, result: Vec<O>) -> (outcome: Handover)
        ensures
            self.replied(Ok(result), outcome),
            concerns(outcome, self.client_id),
    {
        self.reply(Ok(result))
    }

    /// Sends the caller a failure.
    pub fn reply_with_error(self, error: RequestError) -> (outcome: Handover)
        ensures
            self.replied(Err(error), outcome),
            concerns(outcome, self.client_id),
    {
        self.reply(Err(error))
    }
}

/// Number of data items that a sequence of requests holds.
pub open spec fn total_items<E: ApiEndpont>(requests: Seq<RequestClient<E>>) -> nat
    decreases requests.len(),
{
    if requests.len() == 0 {
        0
    } else {
        total_items(requests.drop_last()) + requests.last().size()
    }
}

/// The data items of a sequence of requests, request after request.
pub open spec fn all_data<E: ApiEndpont>(requests: Seq<RequestClient<E>>) -> Seq<E::DataItem>
    decreases requests.len(),
{
    if requests.len() == 0 {
        Seq::empty()
    } else {
        all_data(requests.drop_last()) + requests.last().data@
    }
}

/// One more request adds its items at the end.
pub proof fn lemma_items_push<E: ApiEndpont>(
    requests: Seq<RequestClient<E>>,
    request: RequestClient<E>,
)
    ensures
        total_items(requests.push(request)) == total_items(requests) + request.size(),
        all_data(requests.push(request)) == all_data(requests) + request.data@,
{
    assert(requests.push(request).drop_last() == requests);
}

/// The items of two runs of requests, one after the other.
pub proof fn lemma_items_concat<E: ApiEndpont>(
    first: Seq<RequestClient<E>>,
    second: Seq<RequestClient<E>>,
)
    ensures
        total_items(first + second) == total_items(first) + total_items(second),
        all_data(first + second) == all_data(first) + all_data(second),
    decreases second.len(),
{
    if second.len() > 0 {
        lemma_items_concat(first, second.drop_last());
        assert((first + second).drop_last() == first + second.drop_last());
    }
}

/// The first requests of a sequence hold no more items than all of them.
pub proof fn lemma_items_prefix<E: ApiEndpont>(requests: Seq<RequestClient<E>>, count: int)
    requires
        0 <= count <= requests.len(),
    ensures
        total_items(requests.take(count)) <= total_items(requests),
{
    lemma_items_concat(requests.take(count), requests.skip(count));
    assert(requests.take(count) + requests.skip(count) == requests);
}

/// The concatenated data has as many items as the requests hold.
pub proof fn lemma_all_data_len<E: ApiEndpont>(requests: Seq<RequestClient<E>>)
    ensures
        all_data(requests).len() == total_items(requests),
    decreases requests.len(),
{
    if requests.len() > 0 {
        lemma_all_data_len(requests.drop_last());
    }
}

} // verus!
