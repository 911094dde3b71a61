//! The manager: it routes each request to the worker of its grouping key
//! and has a new worker started when it sees a key for the first time.
//!
//! The manager keeps the keys it has seen, in the order in which it first
//! saw them, and the handle of each key's worker; the position of a key is
//! the slot of its worker. Workers are never removed.

use crate::api::endpoint::{decomposed, lawful_keys, ApiEndpont, GroupingParams};
use crate::batch::batch_worker::{BatchWorkerHandle, WorkerUnavailable};
use crate::reply_channel::{concerns, paired, Reply};
use crate::request::RequestClient;
use std::sync::Arc;
use tokio::sync::oneshot::Receiver;
use uuid::Uuid;
use vstd::prelude::*;
use vstd::std_specs::cmp::PartialEqSpec;

verus! {

/// What travels on the manager's queue: a request and its grouping key.
#[verifier::reject_recursive_types(TApiEndpoint)]
pub enum BatchManagerMessage<TApiEndpoint: ApiEndpont> {
    NewRequest(RequestClient<TApiEndpoint>, TApiEndpoint::GroupingParams),
}

/// Where a request went.
pub struct Routed {
    /// The slot of the worker that was given the request.
    pub worker: usize,
    /// Whether that worker was started for this request.
    pub started: bool,
    /// Whether the worker's queue took the request; if not, the request was
    /// failed.
    pub outcome: Result<(), WorkerUnavailable>,
}

/// The slot of `key`: the position of the first of `keys` that equals it,
/// and the number of keys when none does.
pub open spec fn slot_of<K: PartialEq>(keys: Seq<K>, key: K) -> int
    decreases keys.len(),
{
    if keys.len() == 0 {
        0
    } else if keys.first().eq_spec(&key) {
        0
    } else {
        1 + slot_of(keys.drop_first(), key)
    }
}

/// Whether a worker exists for `key`.
pub open spec fn known<K: PartialEq>(keys: Seq<K>, key: K) -> bool {
    slot_of(keys, key) < keys.len()
}

/// The keys after a request for `key` was routed: a key seen for the first
/// time is added at the end.
pub open spec fn keys_after<K: PartialEq>(keys: Seq<K>, key: K) -> Seq<K> {
    if known(keys, key) {
        keys
    } else {
        keys.push(key)
    }
}

/// No two keys are equal: there is at most one worker per key.
pub open spec fn one_worker_per_key<K: PartialEq>(keys: Seq<K>) -> bool {
    forall|i: int, j: int|
        #![trigger keys[i], keys[j]]
        0 <= i < j < keys.len() ==> !keys[i].eq_spec(&keys[j])
}

/// The slot of a key is a position among the keys or just behind them; the
/// key at that position equals it, and no key before does.
pub proof fn lemma_slot_of<K: PartialEq>(keys: Seq<K>, key: K)
    ensures
        0 <= slot_of(keys, key) <= keys.len(),
        known(keys, key) ==> keys[slot_of(keys, key)].eq_spec(&key),
        forall|j: int| 0 <= j < slot_of(keys, key) ==> !(#[trigger] keys[j]).eq_spec(&key),
    decreases keys.len(),
{
    if keys.len() > 0 && !keys.first().eq_spec(&key) {
        let rest = keys.drop_first();
        lemma_slot_of(rest, key);
        assert forall|j: int| 0 <= j < slot_of(keys, key) implies !(#[trigger] keys[j]).eq_spec(
            &key,
        ) by {
            if j > 0 {
                assert(keys[j] == rest[j - 1]);
            }
        }
    }
}

/// A position whose key equals `key`, while no key before it does, is the
/// slot of `key`; so is the number of keys when no key equals it.
pub proof fn lemma_first_match_is_slot<K: PartialEq>(keys: Seq<K>, key: K, at: int)
    requires
        0 <= at <= keys.len(),
        forall|j: int| 0 <= j < at ==> !(#[trigger] keys[j]).eq_spec(&key),
        at < keys.len() ==> keys[at].eq_spec(&key),
    ensures
        slot_of(keys, key) == at,
    decreases keys.len(),
{
    if keys.len() > 0 && at > 0 {
        lemma_first_match_is_slot(keys.drop_first(), key, at - 1);
    }
}

/// `handle` is what `start` may return when it is asked for a worker for
/// `key`.
pub open spec fn started_for<E: ApiEndpont, S>(
    start: S,
    key: E::GroupingParams,
    handle: BatchWorkerHandle<E>,
) -> bool where S: FnOnce(Arc<E::GroupingParams>) -> BatchWorkerHandle<E> {
    exists|params: Arc<E::GroupingParams>|
        *params == key && #[trigger] call_ensures(start, (params,), handle)
}

/// The manager's table: the grouping keys seen so far and the worker of
/// each.
#[verifier::reject_recursive_types(TApiEndpoint)]
pub struct BatchManager<TApiEndpoint: ApiEndpont> {
    keys: Vec<Arc<TApiEndpoint::GroupingParams>>,
    workers: Vec<BatchWorkerHandle<TApiEndpoint>>,
}

/// `Arc::clone` of the standard library: a second pointer to the same value.
#[verifier::external_body]
fn share<T>(value: &Arc<T>) -> (shared: Arc<T>)
    ensures
        shared == *value,
{
    Arc::clone(value)
}

impl<TApiEndpoint: ApiEndpont> View for BatchManager<TApiEndpoint> {
    type V = Seq<TApiEndpoint::GroupingParams>;

    /// The keys seen so far, in the order of their slots.
    closed spec fn view(&self) -> Seq<TApiEndpoint::GroupingParams> {
        self.keys@.map_values(|key: Arc<TApiEndpoint::GroupingParams>| *key)
    }
}

impl<TApiEndpoint: ApiEndpont> BatchManager<TApiEndpoint> {
    /// The handles of the workers, in the order of their slots.
    pub closed spec fn workers(&self) -> Seq<BatchWorkerHandle<TApiEndpoint>> {
        self.workers@
    }

    /// Every key has one worker, and no two keys are equal.
    pub open spec fn wf(&self) -> bool {
        &&& self.workers().len() == self@.len()
        &&& one_worker_per_key(self@)
    }

    /// A manager that has seen no key.
    pub fn new() -> (manager: Self)
        ensures
            manager.wf(),
            manager@ == Seq::<TApiEndpoint::GroupingParams>::empty(),
            manager.workers() == Seq::<BatchWorkerHandle<TApiEndpoint>>::empty(),
    {
        let manager = BatchManager { keys: Vec::new(), workers: Vec::new() };
        manager
    }

    /// Number of workers started so far.
    pub fn worker_count(&self) -> (count: usize)
        ensures
            count == self@.len(),
    {
        self.keys.len()
    }

    /// The worker of a slot.
    pub fn worker(&self, slot: usize) -> (handle: Option<&BatchWorkerHandle<TApiEndpoint>>)
        ensures
            slot < self.workers().len() ==> handle == Some(&self.workers()[slot as int]),
            slot >= self.workers().len() ==> handle is None,
    {
        if slot < self.workers.len() {
            Some(&self.workers[slot])
        } else {
            None
        }
    }

    /// The slot of the worker for `key`, if there is one.
    pub fn find_worker(&self, key: &TApiEndpoint::GroupingParams) -> (slot: Option<usize>)
        requires
            TApiEndpoint::GroupingParams::obeys_eq_spec(),
        ensures
            known(self@, *key) ==> (slot matches Some(found) && found == slot_of(self@, *key)),
            !known(self@, *key) ==> slot is None,
    {
        let mut i: usize = 0;
        while i < self.keys.len()
            invariant
                TApiEndpoint::GroupingParams::obeys_eq_spec(),
                i <= self.keys@.len(),
                self@.len() == self.keys@.len(),
                forall|j: int| 0 <= j < i ==> !(#[trigger] self@[j]).eq_spec(key),
            decreases self.keys@.len() - i,
        {
            let candidate: &TApiEndpoint::GroupingParams = &self.keys[i];
            if *candidate == *key {
                proof {
                    lemma_first_match_is_slot(self@, *key, i as int);
                }
                return Some(i);
            }
            i = i + 1;
        }
        proof {
            lemma_first_match_is_slot(self@, *key, i as int);
        }
        None
    }

    /// Routes one message: looks up the worker for the request's key, has
    /// `start` start one under a new slot if there is none, and puts the
    /// request on that worker's queue.
    ///
    /// `start` is called at most once, with the key of the new worker, and
    /// only for a key that has no worker yet.
    pub fn handle_messages<S>(
        &mut self,
        message: BatchManagerMessage<TApiEndpoint>,
        start: S,
    ) -> (routed: Routed) where
        S: FnOnce(Arc<TApiEndpoint::GroupingParams>) -> BatchWorkerHandle<TApiEndpoint>,

        requires
            old(self).wf(),
            TApiEndpoint::GroupingParams::obeys_eq_spec(),
            forall|params: Arc<TApiEndpoint::GroupingParams>| call_requires(start, (params,)),
        ensures
            final(self).wf(),
            message matches BatchManagerMessage::NewRequest(req, key) && {
                &&& routed.worker == slot_of(old(self)@, key)
                &&& routed.started == !known(old(self)@, key)
                &&& final(self)@ == keys_after(old(self)@, key)
                &&& known(old(self)@, key) ==> final(self).workers() == old(self).workers()
                &&& !known(old(self)@, key) ==> {
                    &&& final(self).workers().drop_last() == old(self).workers()
                    &&& started_for(start, key, final(self).workers().last())
                }
                &&& routed.outcome matches Err(failure) ==> {
                    &&& failure.worker_id == final(self).workers()[routed.worker as int].id()
                    &&& concerns(failure.reply, req.handle.client_id)
                }
            },
            final(self).workers()[routed.worker as int].forwarded(
                message->NewRequest_0,
                routed.outcome,
            ),
    {
        match message {
            BatchManagerMessage::NewRequest(req, grouping_params) => {
                proof {
                    lemma_slot_of(self@, grouping_params);
                }
                let (worker, started) = match self.find_worker(&grouping_params) {
                    Some(worker) => (worker, false),
                    None => {
                        let worker = self.keys.len();
                        let stored = Arc::new(grouping_params);
                        let params = share(&stored);
                        let handle = start(params);
                        self.keys.push(stored);
                        self.workers.push(handle);
                        assert(self@ =~= old(self)@.push(grouping_params));
                        assert(*params == grouping_params && call_ensures(
                            start,
                            (params,),
                            self.workers().last(),
                        ));
                        (worker, true)
                    },
                };
                let outcome = self.workers[worker].put_request(req);
                Routed { worker, started, outcome }
            },
        }
    }
}

impl<TApiEndpoint: ApiEndpont> BatchManagerMessage<TApiEndpoint> {
    /// The message for a backend-shaped request of the caller `client_id`:
    /// the request's data items as a new request, with its grouping key,
    /// and the receiving end on which the caller awaits its reply, the
    /// other end of the channel of the request's handle.
    pub fn for_api_request(api_request: TApiEndpoint::ApiRequest, client_id: Uuid) -> (made: (
        Receiver<Reply<TApiEndpoint::ApiResponseItem>>,
        Self,
    ))
        ensures
            made.1 matches BatchManagerMessage::NewRequest(req, key) && {
                &&& decomposed::<TApiEndpoint::GroupingParams>(api_request, req.data, key)
                &&& req.handle.client_id == client_id
                &&& paired(req.handle.reply_handle, made.0)
            },
    {
        let (data, grouping_params) = TApiEndpoint::GroupingParams::decompose_api_request(
            api_request,
        );
        let (receiver, client) = RequestClient::new(data, client_id);
        (receiver, BatchManagerMessage::NewRequest(client, grouping_params))
    }
}

/// The keys after requests for each of `arriving` were routed, in order.
pub open spec fn keys_after_all<K: PartialEq>(keys: Seq<K>, arriving: Seq<K>) -> Seq<K>
    decreases arriving.len(),
{
    if arriving.len() == 0 {
        keys
    } else {
        keys_after(keys_after_all(keys, arriving.drop_last()), arriving.last())
    }
}

/// No two of `keys` at different positions are equal.
pub open spec fn pairwise_distinct<K: PartialEq>(keys: Seq<K>) -> bool {
    forall|i: int, j: int|
        #![trigger keys[i], keys[j]]
        0 <= i < keys.len() && 0 <= j < keys.len() && i != j ==> !keys[i].eq_spec(&keys[j])
}

/// Routing never gives one key two workers, and never takes a worker away:
/// the keys seen before keep their slots.
pub proof fn lemma_routing_keeps_workers<K: PartialEq>(keys: Seq<K>, key: K, other: K)
    requires
        one_worker_per_key(keys),
    ensures
        one_worker_per_key(keys_after(keys, key)),
        keys_after(keys, key).len() >= keys.len(),
        keys_after(keys, key).take(keys.len() as int) == keys,
        known(keys, other) ==> slot_of(keys_after(keys, key), other) == slot_of(keys, other),
{
    lemma_slot_of(keys, key);
    lemma_slot_of(keys, other);
    if known(keys, other) {
        lemma_first_match_is_slot(keys_after(keys, key), other, slot_of(keys, other));
    }
}

/// Requests with equal keys go to the same worker: once a request for
/// `first` was routed, a request for an equal key finds that worker and
/// starts none.
pub proof fn lemma_equal_keys_same_worker<K: PartialEq>(keys: Seq<K>, first: K, second: K)
    requires
        lawful_keys::<K>(),
        first.eq_spec(&second),
    ensures
        known(keys_after(keys, first), second),
        slot_of(keys_after(keys, first), second) == slot_of(keys, first),
        keys_after(keys_after(keys, first), second) == keys_after(keys, first),
{
    lemma_slot_of(keys, first);
    lemma_first_match_is_slot(keys_after(keys, first), second, slot_of(keys, first));
}

/// All of `keys` are equal to one another.
pub open spec fn pairwise_equal<K: PartialEq>(keys: Seq<K>) -> bool {
    forall|i: int, j: int|
        #![trigger keys[i], keys[j]]
        0 <= i < keys.len() && 0 <= j < keys.len() ==> keys[i].eq_spec(&keys[j])
}

/// Requests with pairwise equal keys share one worker: every one of them
/// is routed to the slot of the first, and at most one worker is started
/// for all of them.
pub proof fn lemma_equal_keys_one_worker<K: PartialEq>(keys: Seq<K>, arriving: Seq<K>, i: int)
    requires
        lawful_keys::<K>(),
        pairwise_equal(arriving),
        0 <= i < arriving.len(),
    ensures
        slot_of(keys_after_all(keys, arriving.take(i)), arriving[i]) == slot_of(keys, arriving[0]),
        keys_after_all(keys, arriving.take(i + 1)) == keys_after(keys, arriving[0]),
        keys_after_all(keys, arriving) == keys_after(keys, arriving[0]),
    decreases i,
{
    assert(arriving.take(i + 1).drop_last() == arriving.take(i));
    if i > 0 {
        lemma_equal_keys_one_worker(keys, arriving, i - 1);
        lemma_equal_keys_same_worker(keys, arriving[0], arriving[i]);
    }
    lemma_equal_keys_all_routed(keys, arriving, arriving.len() as int);
    assert(arriving.take(arriving.len() as int) == arriving);
}

/// Once the first of pairwise equal keys is routed, the keys stay as they
/// are while the others are.
proof fn lemma_equal_keys_all_routed<K: PartialEq>(keys: Seq<K>, arriving: Seq<K>, count: int)
    requires
        lawful_keys::<K>(),
        pairwise_equal(arriving),
        1 <= count <= arriving.len(),
    ensures
        keys_after_all(keys, arriving.take(count)) == keys_after(keys, arriving[0]),
    decreases count,
{
    assert(arriving.take(count).drop_last() == arriving.take(count - 1));
    if count == 1 {
        assert(keys_after_all(keys, arriving.take(0)) == keys);
    } else {
        lemma_equal_keys_all_routed(keys, arriving, count - 1);
        lemma_equal_keys_same_worker(keys, arriving[0], arriving[count - 1]);
    }
}

/// Requests with different keys go to different workers.
pub proof fn lemma_distinct_keys_distinct_workers<K: PartialEq>(keys: Seq<K>, first: K, second: K)
    requires
        lawful_keys::<K>(),
        !first.eq_spec(&second),
    ensures
        slot_of(keys_after(keys, first), second) != slot_of(keys, first),
{
    lemma_slot_of(keys, first);
    lemma_slot_of(keys_after(keys, first), second);
}

/// Requests with pairwise different keys get one worker each: from a
/// manager that has seen no key, the request for the key at position `i`
/// starts the worker of slot `i`, and every key still has that slot when all
/// are routed. Each worker so holds the request of exactly one caller.
pub proof fn lemma_distinct_keys_one_worker_each<K: PartialEq>(arriving: Seq<K>, i: int)
    requires
        lawful_keys::<K>(),
        pairwise_distinct(arriving),
        0 <= i < arriving.len(),
    ensures
        keys_after_all(Seq::empty(), arriving) == arriving,
        keys_after_all(Seq::empty(), arriving.take(i)) == arriving.take(i),
        !known(arriving.take(i), arriving[i]),
        slot_of(arriving.take(i), arriving[i]) == i,
        slot_of(arriving, arriving[i]) == i,
{
    lemma_distinct_keys_all_new(arriving);
    lemma_distinct_keys_all_new(arriving.take(i));
    lemma_first_match_is_slot(arriving.take(i), arriving[i], i);
    lemma_first_match_is_slot(arriving, arriving[i], i);
}

/// Keys that are pairwise different are all new to a manager that has seen
/// none: each is added in turn.
proof fn lemma_distinct_keys_all_new<K: PartialEq>(arriving: Seq<K>)
    requires
        lawful_keys::<K>(),
        pairwise_distinct(arriving),
    ensures
        keys_after_all(Seq::empty(), arriving) == arriving,
    decreases arriving.len(),
{
    if arriving.len() > 0 {
        let front = arriving.drop_last();
        lemma_distinct_keys_all_new(front);
        lemma_first_match_is_slot(front, arriving.last(), front.len() as int);
    }
}

} // verus!
