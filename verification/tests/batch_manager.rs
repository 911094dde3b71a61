use batch_proxy::api::endpoint::embed_endpoint::{
    EmbedApiEndpoint, EmbedApiRequest, EmbedApiRequestInputs, EmbedRequestGroupingParams,
};
use batch_proxy::batch::batch_manager::{BatchManager, BatchManagerMessage, Routed};
use batch_proxy::batch::batch_worker::{BatchWorkerHandle, BatchWorkerMessage};
use batch_proxy::queue::QueueRefusal;
use batch_proxy::reply_channel::RequestError;
use batch_proxy::request::RequestClient;
use std::sync::Arc;
use tokio::sync::mpsc;
use tokio::sync::oneshot::error::TryRecvError;
use uuid::Uuid;

type Endpoint = EmbedApiEndpoint<Vec<f64>>;

type Queue = mpsc::Receiver<BatchWorkerMessage<Endpoint>>;

/// What the test keeps of each worker that the manager had started.
struct Started {
    worker_id: Uuid,
    params: Arc<EmbedRequestGroupingParams>,
    queue: Queue,
}

fn texts(items: &[&str]) -> Vec<String> {
    items.iter().map(|item| item.to_string()).collect()
}

fn key(dimensions: usize) -> EmbedRequestGroupingParams {
    EmbedRequestGroupingParams {
        dimensions: Some(dimensions),
        normalize: None,
        prompt_name: Some("query".to_string()),
        truncate: None,
        truncation_direction: None,
    }
}

fn message(items: &[&str], dimensions: usize) -> (Uuid, BatchManagerMessage<Endpoint>) {
    let id = Uuid::new_v4();
    let (_receiver, client) = RequestClient::new(texts(items), id);
    (id, BatchManagerMessage::NewRequest(client, key(dimensions)))
}

fn route(
    manager: &mut BatchManager<Endpoint>,
    started: &mut Vec<Started>,
    capacity: usize,
    message: BatchManagerMessage<Endpoint>,
) -> Routed {
    manager.handle_messages(message, |params| {
        let worker_id = Uuid::new_v4();
        let (sender, queue) = mpsc::channel(capacity);
        started.push(Started { worker_id, params, queue });
        BatchWorkerHandle::new(sender, worker_id)
    })
}

fn queued(queue: &mut Queue) -> Vec<(Uuid, Vec<String>)> {
    let mut found = Vec::new();
    while let Ok(BatchWorkerMessage::NewRequest(client)) = queue.try_recv() {
        found.push((client.handle.client_id, client.data));
    }
    found
}

#[test]
fn new_manager_knows_no_worker() {
    let manager = BatchManager::<Endpoint>::new();
    assert_eq!(manager.worker_count(), 0);
    assert_eq!(manager.find_worker(&key(1)), None);
    assert!(manager.worker(0).is_none());
}

#[test]
fn first_request_of_a_key_starts_a_worker_with_that_key_and_reaches_it() {
    let mut manager = BatchManager::<Endpoint>::new();
    let mut started = Vec::new();
    let (id, first) = message(&["a", "b"], 7);
    let routed = route(&mut manager, &mut started, 8, first);
    assert_eq!(routed.worker, 0);
    assert!(routed.started);
    assert!(routed.outcome.is_ok());
    assert_eq!(started.len(), 1);
    assert!(*started[0].params == key(7));
    assert_eq!(queued(&mut started[0].queue), vec![(id, texts(&["a", "b"]))]);
    assert_eq!(manager.worker_count(), 1);
    assert_eq!(manager.find_worker(&key(7)), Some(0));
    assert_eq!(manager.worker(0).map(|handle| handle.worker_id()), Some(started[0].worker_id));
    assert!(manager.worker(1).is_none());
}

#[test]
fn second_request_of_a_key_goes_to_the_same_worker_and_starts_none() {
    let mut manager = BatchManager::<Endpoint>::new();
    let mut started = Vec::new();
    let (first_id, first) = message(&["a"], 7);
    let (second_id, second) = message(&["b"], 7);
    let one = route(&mut manager, &mut started, 8, first);
    let two = route(&mut manager, &mut started, 8, second);
    assert_eq!(two.worker, one.worker);
    assert!(!two.started);
    assert!(two.outcome.is_ok());
    assert_eq!(started.len(), 1);
    assert_eq!(manager.worker_count(), 1);
    assert_eq!(
        queued(&mut started[0].queue),
        vec![(first_id, texts(&["a"])), (second_id, texts(&["b"]))]
    );
}

#[test]
fn requests_with_different_keys_go_to_different_workers() {
    let mut manager = BatchManager::<Endpoint>::new();
    let mut started = Vec::new();
    let mut slots = Vec::new();
    let mut ids = Vec::new();
    for dimensions in [3, 1, 2] {
        let (id, next) = message(&["x"], dimensions);
        let routed = route(&mut manager, &mut started, 8, next);
        assert!(routed.started);
        slots.push(routed.worker);
        ids.push(id);
    }
    assert_eq!(slots, vec![0, 1, 2]);
    assert_eq!(manager.worker_count(), 3);
    assert_eq!(manager.find_worker(&key(3)), Some(0));
    assert_eq!(manager.find_worker(&key(1)), Some(1));
    assert_eq!(manager.find_worker(&key(2)), Some(2));
    assert_eq!(manager.find_worker(&key(4)), None);
    for (worker, id) in started.iter_mut().zip(ids) {
        assert_eq!(queued(&mut worker.queue), vec![(id, texts(&["x"]))]);
    }
    let params: Vec<Option<usize>> = started.iter().map(|worker| worker.params.dimensions).collect();
    assert_eq!(params, vec![Some(3), Some(1), Some(2)]);
}

#[test]
fn a_key_keeps_its_worker_while_other_keys_arrive() {
    let mut manager = BatchManager::<Endpoint>::new();
    let mut started = Vec::new();
    let first = route(&mut manager, &mut started, 8, message(&["a"], 1).1);
    route(&mut manager, &mut started, 8, message(&["b"], 2).1);
    route(&mut manager, &mut started, 8, message(&["c"], 3).1);
    let again = route(&mut manager, &mut started, 8, message(&["d"], 1).1);
    assert_eq!(again.worker, first.worker);
    assert!(!again.started);
    assert_eq!(manager.worker_count(), 3);
    assert_eq!(queued(&mut started[0].queue).len(), 2);
    assert_eq!(manager.worker(0).map(|handle| handle.worker_id()), Some(started[0].worker_id));
    assert_eq!(manager.worker(2).map(|handle| handle.worker_id()), Some(started[2].worker_id));
}

#[test]
fn keys_that_differ_in_an_absent_parameter_get_workers_of_their_own() {
    let mut manager = BatchManager::<Endpoint>::new();
    let mut started = Vec::new();
    let present = key(1);
    let absent = EmbedRequestGroupingParams { prompt_name: None, ..key(1) };
    let (_r1, first) = RequestClient::new(texts(&["a"]), Uuid::new_v4());
    let (_r2, second) = RequestClient::new(texts(&["b"]), Uuid::new_v4());
    let one =
        route(&mut manager, &mut started, 8, BatchManagerMessage::NewRequest(first, present));
    let two =
        route(&mut manager, &mut started, 8, BatchManagerMessage::NewRequest(second, absent));
    assert_eq!((one.worker, two.worker), (0, 1));
    assert!(two.started);
}

#[test]
fn request_for_a_worker_whose_queue_is_full_is_failed() {
    let mut manager = BatchManager::<Endpoint>::new();
    let mut started = Vec::new();
    assert!(route(&mut manager, &mut started, 1, message(&["a"], 1).1).outcome.is_ok());
    let (mut receiver, client) = RequestClient::new(texts(&["b"]), Uuid::new_v4());
    let routed =
        route(&mut manager, &mut started, 1, BatchManagerMessage::NewRequest(client, key(1)));
    assert_eq!(routed.worker, 0);
    assert!(!routed.started);
    let failure = routed.outcome.expect_err("the queue holds one message");
    assert_eq!(failure.worker_id, started[0].worker_id);
    assert_eq!(failure.refusal, QueueRefusal::Full);
    assert_eq!(receiver.try_recv(), Ok(Err(RequestError::WorkerUnavailable)));
    assert_eq!(queued(&mut started[0].queue).len(), 1);
}

#[test]
fn request_for_a_worker_that_has_exited_is_failed() {
    let mut manager = BatchManager::<Endpoint>::new();
    let mut started = Vec::new();
    route(&mut manager, &mut started, 4, message(&["a"], 1).1);
    let gone = started.remove(0);
    drop(gone.queue);
    let (mut receiver, client) = RequestClient::new(texts(&["b"]), Uuid::new_v4());
    let routed =
        route(&mut manager, &mut started, 4, BatchManagerMessage::NewRequest(client, key(1)));
    assert!(!routed.started);
    assert!(started.is_empty());
    let failure = routed.outcome.expect_err("the worker has exited");
    assert_eq!(failure.worker_id, gone.worker_id);
    assert_eq!(failure.refusal, QueueRefusal::Closed);
    assert_eq!(receiver.try_recv(), Ok(Err(RequestError::WorkerUnavailable)));
}

#[test]
fn message_for_an_api_request_holds_its_data_key_and_caller() {
    let id = Uuid::new_v4();
    let api_request = EmbedApiRequest {
        inputs: EmbedApiRequestInputs::Str("one".to_string()),
        dimensions: Some(5),
        normalize: None,
        prompt_name: Some("query".to_string()),
        truncate: None,
        truncation_direction: None,
    };
    let (mut receiver, message) = BatchManagerMessage::<Endpoint>::for_api_request(api_request, id);
    let BatchManagerMessage::NewRequest(client, grouping_params) = message;
    assert_eq!(client.data, texts(&["one"]));
    assert_eq!(client.handle.client_id, id);
    assert!(grouping_params == key(5));
    assert_eq!(receiver.try_recv(), Err(TryRecvError::Empty));
    assert!(client.handle.reply_with_result(vec![vec![0.5]]).is_ok());
    assert_eq!(receiver.try_recv(), Ok(Ok(vec![vec![0.5]])));
}

#[test]
fn message_that_is_never_routed_leaves_the_caller_with_a_closed_channel() {
    let api_request = EmbedApiRequest {
        inputs: EmbedApiRequestInputs::Vec(texts(&["a"])),
        dimensions: None,
        normalize: None,
        prompt_name: None,
        truncate: None,
        truncation_direction: None,
    };
    let (mut receiver, message) =
        BatchManagerMessage::<Endpoint>::for_api_request(api_request, Uuid::new_v4());
    drop(message);
    assert_eq!(receiver.try_recv(), Err(TryRecvError::Closed));
}
