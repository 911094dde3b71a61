//! The worker of one grouping key: it owns a store and decides, event by
//! event, when the store is flushed into a batch.
//!
//! The worker does not wait, sleep or call the backend. Its host feeds it
//! one event at a time and carries out what the worker answers: dispatch
//! this batch, stop.

use crate::api::endpoint::ApiEndpont;
use crate::batch::batch_executor::{batch_requests, Batch};
use crate::batch::request_store::{RequestStoreV2, StoreView};
use crate::queue::{offer, offered, QueueRefusal};
use crate::reply_channel::{concerns, Handover, RequestError};
use crate::request::RequestClient;
use crate::settings::BatchSettings;
use std::sync::Arc;
use tokio::sync::mpsc::Sender;
use uuid::Uuid;
use vstd::prelude::*;

verus! {

/// What travels on a worker's queue.
#[verifier::reject_recursive_types(TApiEndpoint)]
pub enum BatchWorkerMessage<TApiEndpoint: ApiEndpont> {
    NewRequest(RequestClient<TApiEndpoint>),
}

/// What can happen to a worker.
#[verifier::reject_recursive_types(TApiEndpoint)]
pub enum WorkerEvent<TApiEndpoint: ApiEndpont> {
    /// A message arrived on the queue.
    Message(BatchWorkerMessage<TApiEndpoint>),
    /// The flush timer elapsed.
    TimerElapsed,
    /// All senders of the queue are gone.
    QueueClosed,
    /// The worker was told to shut down.
    Cancelled,
}

/// What the host has to do after an event.
#[verifier::reject_recursive_types(TApiEndpoint)]
pub struct WorkerAction<TApiEndpoint: ApiEndpont> {
    /// The batch to hand to the dispatcher, if the event flushed one.
    pub dispatch: Option<Batch<TApiEndpoint>>,
    /// Whether the event was a request that did not fit the store.
    pub overflowed: bool,
    /// Whether the worker is done and takes no further events.
    pub stop: bool,
}

/// The effect of one event on a store: what the store holds afterwards,
/// which requests left it as one batch (none for no batch), whether the
/// event was a request that did not fit, and whether the worker stops.
#[verifier::reject_recursive_types(TApiEndpoint)]
pub struct Reaction<TApiEndpoint: ApiEndpont> {
    pub store: StoreView<TApiEndpoint>,
    pub flushed: Seq<RequestClient<TApiEndpoint>>,
    pub overflowed: bool,
    pub stop: bool,
}

/// A new request is stored if it fits. If it does not, everything pending
/// is flushed and the request is parked alone, however large it is.
pub open spec fn accept<E: ApiEndpont>(store: StoreView<E>, req: RequestClient<E>) -> Reaction<E> {
    if store.admits(req) {
        Reaction { store: store.with(req), flushed: Seq::empty(), overflowed: false, stop: false }
    } else {
        Reaction {
            store: store.emptied().with(req),
            flushed: store.pending,
            overflowed: true,
            stop: false,
        }
    }
}

/// A flush takes everything pending as one batch.
pub open spec fn flush<E: ApiEndpont>(store: StoreView<E>) -> Reaction<E> {
    Reaction { store: store.emptied(), flushed: store.pending, overflowed: false, stop: false }
}

/// The effect of `event` on `store`.
pub open spec fn react<E: ApiEndpont>(store: StoreView<E>, event: WorkerEvent<E>) -> Reaction<E> {
    match event {
        WorkerEvent::Message(BatchWorkerMessage::NewRequest(req)) => accept(store, req),
        WorkerEvent::TimerElapsed => flush(store),
        WorkerEvent::QueueClosed => Reaction { stop: true, ..flush(store) },
        WorkerEvent::Cancelled => Reaction { stop: true, ..flush(store) },
    }
}

/// `dispatch` is the batch of `flushed` under `params`: no batch when
/// nothing was flushed.
pub open spec fn dispatches<E: ApiEndpont>(
    dispatch: Option<Batch<E>>,
    flushed: Seq<RequestClient<E>>,
    params: E::GroupingParams,
) -> bool {
    if flushed.len() == 0 {
        dispatch is None
    } else {
        dispatch matches Some(batch) && batch.assembles(flushed, params)
    }
}

/// The worker of one grouping key.
#[verifier::reject_recursive_types(TApiEndpoint)]
pub struct BatchWorker<TApiEndpoint: ApiEndpont> {
    request_store: RequestStoreV2<TApiEndpoint>,
    worker_id: Uuid,
    grouping_params: Arc<TApiEndpoint::GroupingParams>,
}

impl<TApiEndpoint: ApiEndpont> View for BatchWorker<TApiEndpoint> {
    type V = StoreView<TApiEndpoint>;

    /// A worker is seen as its store.
    closed spec fn view(&self) -> StoreView<TApiEndpoint> {
        self.request_store@
    }
}

impl<TApiEndpoint: ApiEndpont> BatchWorker<TApiEndpoint> {
    /// The store's running count is right.
    pub closed spec fn wf(&self) -> bool {
        self.request_store.wf()
    }

    /// The grouping key that all requests of this worker share.
    pub closed spec fn params(&self) -> TApiEndpoint::GroupingParams {
        *self.grouping_params
    }

    /// The worker's id.
    pub closed spec fn id(&self) -> Uuid {
        self.worker_id
    }

    /// A worker for `grouping_params` with an empty store bounded by
    /// `batch_config.max_batch_size`.
    pub fn new(
        grouping_params: Arc<TApiEndpoint::GroupingParams>,
        batch_config: &BatchSettings,
        worker_id: Uuid,
    ) -> (worker: Self)
        ensures
            worker.wf(),
            worker@ == StoreView::<TApiEndpoint>::empty(batch_config.max_batch_size as nat),
            worker.params() == *grouping_params,
            worker.id() == worker_id,
    {
        BatchWorker {
            request_store: RequestStoreV2::new(batch_config.max_batch_size),
            worker_id,
            grouping_params,
        }
    }

    /// The worker's id.
    pub fn worker_id(&self) -> (worker_id: Uuid)
        ensures
            worker_id == self.id(),
    {
        self.worker_id
    }

    /// The grouping key that all requests of this worker share.
    pub fn grouping_params(&self) -> (grouping_params: &TApiEndpoint::GroupingParams)
        ensures
            *grouping_params == self.params(),
    {
        &self.grouping_params
    }

    /// Takes everything pending and assembles it into a batch. With an
    /// empty store nothing happens and there is no batch.
    pub fn flush_batch(&mut self) -> (dispatch: Option<Batch<TApiEndpoint>>)
        requires
            old(self).wf(),
        ensures
            final(self).wf(),
            final(self).params() == old(self).params(),
            final(self).id() == old(self).id(),
            final(self)@ == flush(old(self)@).store,
            dispatches(dispatch, flush(old(self)@).flushed, old(self).params()),
    {
        if self.request_store.is_empty() {
            assert(self@.pending =~= Seq::empty());
            return None;
        }
        let (current_batch_size, requests) = self.request_store.drain();
        let batch = batch_requests(current_batch_size, requests, &self.grouping_params);
        Some(batch)
    }

    /// Takes in a new request. A request that does not fit flushes the
    /// store first and is then stored alone, whatever its size.
    pub fn handle_new_request(&mut self, req: RequestClient<TApiEndpoint>) -> (action:
        WorkerAction<TApiEndpoint>)
        requires
            old(self).wf(),
        ensures
            final(self).wf(),
            final(self).params() == old(self).params(),
            final(self).id() == old(self).id(),
            final(self)@ == accept(old(self)@, req).store,
            action.overflowed == accept(old(self)@, req).overflowed,
            !action.stop,
            dispatches(action.dispatch, accept(old(self)@, req).flushed, old(self).params()),
    {
        match self.request_store.try_store(req) {
            None => WorkerAction { dispatch: None, overflowed: false, stop: false },
            Some(req) => {
                let dispatch = self.flush_batch();
                assert(self@.current_size() == 0 && req.size() == req.data.len());
                self.request_store.force_store(req);
                WorkerAction { dispatch, overflowed: true, stop: false }
            },
        }
    }

    /// Handles one message of the queue.
    pub fn handle_message(&mut self, message: BatchWorkerMessage<TApiEndpoint>) -> (action:
        WorkerAction<TApiEndpoint>)
        requires
            old(self).wf(),
        ensures
            final(self).wf(),
            final(self).params() == old(self).params(),
            final(self).id() == old(self).id(),
            final(self)@ == react(old(self)@, WorkerEvent::Message(message)).store,
            action.overflowed == react(old(self)@, WorkerEvent::Message(message)).overflowed,
            action.stop == react(old(self)@, WorkerEvent::Message(message)).stop,
            dispatches(
                action.dispatch,
                react(old(self)@, WorkerEvent::Message(message)).flushed,
                old(self).params(),
            ),
    {
        match message {
            BatchWorkerMessage::NewRequest(req) => self.handle_new_request(req),
        }
    }

    /// One turn of the worker's loop: the effect of `event` on the store,
    /// the batch to dispatch if the event flushed one, and whether the
    /// worker stops.
    pub fn handle_event(&mut self, event: WorkerEvent<TApiEndpoint>) -> (action: WorkerAction<
        TApiEndpoint,
    >)
        requires
            old(self).wf(),
        ensures
            final(self).wf(),
            final(self).params() == old(self).params(),
            final(self).id() == old(self).id(),
            final(self)@ == react(old(self)@, event).store,
            action.overflowed == react(old(self)@, event).overflowed,
            action.stop == react(old(self)@, event).stop,
            dispatches(action.dispatch, react(old(self)@, event).flushed, old(self).params()),
    {
        match event {
            WorkerEvent::Message(message) => self.handle_message(message),
            WorkerEvent::TimerElapsed => WorkerAction {
                dispatch: self.flush_batch(),
                overflowed: false,
                stop: false,
            },
            WorkerEvent::QueueClosed => WorkerAction {
                dispatch: self.flush_batch(),
                overflowed: false,
                stop: true,
            },
            WorkerEvent::Cancelled => WorkerAction {
                dispatch: self.flush_batch(),
                overflowed: false,
                stop: true,
            },
        }
    }
}

impl<TApiEndpoint: ApiEndpont> BatchWorkerMessage<TApiEndpoint> {
    /// Fails the request of a message that could not be put on its
    /// worker's queue: its caller is told that the worker is unavailable.
    pub fn reject(self) -> (outcome: Handover)
        ensures
            self matches BatchWorkerMessage::NewRequest(req) && {
                &&& req.handle.replied(Err(RequestError::WorkerUnavailable), outcome)
                &&& concerns(outcome, req.handle.client_id)
            },
    {
        match self {
            BatchWorkerMessage::NewRequest(req) => req.handle.reply_with_error(
                RequestError::WorkerUnavailable,
            ),
        }
    }
}

/// A request could not be put on a worker's queue and was failed.
#[derive(Debug, Clone, Copy)]
pub struct WorkerUnavailable {
    /// The worker that could not take the request.
    pub worker_id: Uuid,
    /// Why its queue did not take the message.
    pub refusal: QueueRefusal,
    /// Whether the failure could be handed to the caller.
    pub reply: Handover,
}

/// The way to one worker: the sending end of its queue, and the worker's
/// id.
#[verifier::reject_recursive_types(TApiEndpoint)]
pub struct BatchWorkerHandle<TApiEndpoint: ApiEndpont> {
    sender: Sender<BatchWorkerMessage<TApiEndpoint>>,
    worker_id: Uuid,
}

impl<TApiEndpoint: ApiEndpont> BatchWorkerHandle<TApiEndpoint> {
    /// The id of the worker behind the handle.
    pub closed spec fn id(&self) -> Uuid {
        self.worker_id
    }

    /// The handle of the worker `worker_id` that receives from `sender`'s
    /// queue.
    pub fn new(sender: Sender<BatchWorkerMessage<TApiEndpoint>>, worker_id: Uuid) -> (handle: Self)
        ensures
            handle.id() == worker_id,
            handle.queue() == sender,
    {
        BatchWorkerHandle { sender, worker_id }
    }

    /// The id of the worker behind the handle.
    pub fn worker_id(&self) -> (worker_id: Uuid)
        ensures
            worker_id == self.id(),
    {
        self.worker_id
    }

    /// The sending end of the worker's queue.
    pub closed spec fn queue(&self) -> Sender<BatchWorkerMessage<TApiEndpoint>> {
        self.sender
    }

    /// `outcome` is what is made of the queue's answer `returned`: nothing
    /// more when the queue took the message, and when it did not, the
    /// failure of the message's request, reported with this worker's id, the
    /// queue's reason, and what became of the reply to the caller.
    pub open spec fn settled(
        &self,
        returned: Result<(), (QueueRefusal, BatchWorkerMessage<TApiEndpoint>)>,
        outcome: Result<(), WorkerUnavailable>,
    ) -> bool {
        match returned {
            Ok(_) => outcome is Ok,
            Err((refusal, BatchWorkerMessage::NewRequest(req))) => {
                &&& outcome matches Err(failure)
                &&& failure.worker_id == self.id()
                &&& failure.refusal == refusal
                &&& req.handle.replied(Err(RequestError::WorkerUnavailable), failure.reply)
            },
        }
    }

    /// `outcome` is what became of `req` when it was forwarded to this
    /// worker: the request was offered to the worker's queue as a new
    /// request, and the outcome is what is made of the queue's answer.
    pub open spec fn forwarded(
        &self,
        req: RequestClient<TApiEndpoint>,
        outcome: Result<(), WorkerUnavailable>,
    ) -> bool {
        exists|returned: Result<(), (QueueRefusal, BatchWorkerMessage<TApiEndpoint>)>|
            #[trigger] offered(self.queue(), BatchWorkerMessage::NewRequest(req), returned)
                && self.settled(returned, outcome)
    }

    /// Settles what the worker's queue answered to an offered message: a
    /// message that the queue refused is rejected, so that its caller
    /// learns that the worker is unavailable.
    pub fn settle(
        &self,
        returned: Result<(), (QueueRefusal, BatchWorkerMessage<TApiEndpoint>)>,
    ) -> (outcome: Result<(), WorkerUnavailable>)
        ensures
            self.settled(returned, outcome),
    {
        match returned {
            Ok(()) => Ok(()),
            Err((refusal, message)) => Err(
                WorkerUnavailable { worker_id: self.worker_id, refusal, reply: message.reject() },
            ),
        }
    }

    /// Puts `req` on the worker's queue without waiting. When the queue is
    /// full or the worker has exited, the request is failed at once, and
    /// `Err` says which worker, why, and whether the caller still waited.
    pub fn put_request(&self, req: RequestClient<TApiEndpoint>) -> (outcome: Result<
        (),
        WorkerUnavailable,
    >)
        ensures
            self.forwarded(req, outcome),
            outcome matches Err(failure) ==> {
                &&& failure.worker_id == self.id()
                &&& req.handle.replied(Err(RequestError::WorkerUnavailable), failure.reply)
                &&& concerns(failure.reply, req.handle.client_id)
            },
    {
        let returned = offer(&self.sender, BatchWorkerMessage::NewRequest(req));
        let outcome = self.settle(returned);
        assert(offered(self.queue(), BatchWorkerMessage::NewRequest(req), returned)
            && self.settled(returned, outcome));
        outcome
    }
}

} // verus!
