//! The bounded buffer in which one worker holds requests until a flush.

use crate::api::endpoint::ApiEndpont;
use crate::request::{lemma_items_push, total_items, RequestClient};
use vstd::prelude::*;

verus! {

/// What a store holds: the pending requests in insertion order, and the
/// bound on their data items.
#[verifier::reject_recursive_types(TApiEndpoint)]
pub struct StoreView<TApiEndpoint: ApiEndpont> {
    pub pending: Seq<RequestClient<TApiEndpoint>>,
    pub max_batch_size: nat,
}

impl<TApiEndpoint: ApiEndpont> StoreView<TApiEndpoint> {
    /// The store with nothing pending.
    pub open spec fn empty(max_batch_size: nat) -> Self {
        StoreView { pending: Seq::empty(), max_batch_size }
    }

    /// Number of data items pending.
    pub open spec fn current_size(self) -> nat {
        total_items(self.pending)
    }

    /// Whether `req` fits: the bound is inclusive.
    pub open spec fn admits(self, req: RequestClient<TApiEndpoint>) -> bool {
        self.current_size() + req.size() <= self.max_batch_size
    }

    /// The store with `req` added at the end.
    pub open spec fn with(self, req: RequestClient<TApiEndpoint>) -> Self {
        StoreView { pending: self.pending.push(req), max_batch_size: self.max_batch_size }
    }

    /// The store after everything pending was taken.
    pub open spec fn emptied(self) -> Self {
        StoreView { pending: Seq::empty(), max_batch_size: self.max_batch_size }
    }
}

/// The bound is inclusive: a request that brings the store exactly to its
/// bound is admitted, and one that brings it one item further is not.
pub proof fn lemma_bound_is_inclusive<E: ApiEndpont>(store: StoreView<E>, req: RequestClient<E>)
    ensures
        store.current_size() + req.size() == store.max_batch_size ==> store.admits(req),
        store.current_size() + req.size() == store.max_batch_size + 1 ==> !store.admits(req),
        store.admits(req) ==> store.with(req).current_size() <= store.max_batch_size,
{
    lemma_items_push(store.pending, req);
}

/// Pending requests of one worker, with a running count of their data items.
#[verifier::reject_recursive_types(TApiEndpoint)]
pub struct RequestStoreV2<TApiEndpoint: ApiEndpont> {
    pending_requests: Vec<RequestClient<TApiEndpoint>>,
    current_batch_size: usize,
    max_batch_size: usize,
}

impl<TApiEndpoint: ApiEndpont> View for RequestStoreV2<TApiEndpoint> {
    type V = StoreView<TApiEndpoint>;

    closed spec fn view(&self) -> StoreView<TApiEndpoint> {
        StoreView {
            pending: self.pending_requests@,
            max_batch_size: self.max_batch_size as nat,
        }
    }
}

impl<TApiEndpoint: ApiEndpont> RequestStoreV2<TApiEndpoint> {
    /// The running count equals the number of data items pending.
    pub closed spec fn wf(&self) -> bool {
        self.current_batch_size == total_items(self.pending_requests@)
    }

    /// An empty store that admits up to `max_batch_size` data items.
    pub fn new(max_batch_size: usize) -> (store: Self)
        ensures
            store.wf(),
            store@ == StoreView::<TApiEndpoint>::empty(max_batch_size as nat),
    {
        Self { pending_requests: Vec::new(), current_batch_size: 0, max_batch_size }
    }

    /// Stores `req` if it fits, and hands it back unchanged if it does not.
    pub fn try_store(&mut self, req: RequestClient<TApiEndpoint>) -> (rejected: Option<
        RequestClient<TApiEndpoint>,
    >)
        requires
            old(self).wf(),
        ensures
            final(self).wf(),
            old(self)@.admits(req) ==> rejected is None && final(self)@ == old(self)@.with(req),
            !old(self)@.admits(req) ==> rejected == Some(req) && final(self)@ == old(self)@,
    {
        let data_count = req.data.len();
        let fits = match self.current_batch_size.checked_add(data_count) {
            Some(size) => size <= self.max_batch_size,
            None => false,
        };
        if !fits {
            return Some(req);
        }
        proof {
            lemma_items_push(self.pending_requests@, req);
        }
        self.current_batch_size = self.current_batch_size + data_count;
        self.pending_requests.push(req);
        None
    }

    /// Stores `req` whatever the bound says. The count of data items must
    /// still fit the machine's word.
    pub fn force_store(&mut self, req: RequestClient<TApiEndpoint>)
        requires
            old(self).wf(),
            old(self)@.current_size() + req.size() <= usize::MAX,
        ensures
            final(self).wf(),
            final(self)@ == old(self)@.with(req),
    {
        let data_count = req.data.len();
        proof {
            lemma_items_push(self.pending_requests@, req);
        }
        self.current_batch_size = self.current_batch_size + data_count;
        self.pending_requests.push(req);
    }

    /// Takes everything pending, with the number of data items it holds.
    pub fn drain(&mut self) -> (taken: (usize, Vec<RequestClient<TApiEndpoint>>))
        requires
            old(self).wf(),
        ensures
            final(self).wf(),
            final(self)@ == old(self)@.emptied(),
            taken.0 == old(self)@.current_size(),
            taken.1@ == old(self)@.pending,
    {
        let mut requests = Vec::new();
        std::mem::swap(&mut self.pending_requests, &mut requests);
        let current_batch_size = self.current_batch_size;
        self.current_batch_size = 0;
        (current_batch_size, requests)
    }

    /// Whether nothing is pending.
    pub fn is_empty(&self) -> (empty: bool)
        ensures
            empty == (self@.pending.len() == 0),
    {
        self.pending_requests.is_empty()
    }
}

} // verus!
