#![allow(non_snake_case)]

use batch_proxy::api::endpoint::{ApiEndpont, GroupingParams};
use batch_proxy::batch::request_store::RequestStoreV2;
use batch_proxy::request::RequestClient;
use uuid::Uuid;

struct TestApiEndpoint;

#[derive(Debug, Clone, PartialEq, Eq, Hash)]
struct TestGroupingParams;

impl GroupingParams for TestGroupingParams {
    type DataItem = ();

    type ApiRequest = ();

    fn to_request(&self, _data: Vec<Self::DataItem>) -> Self::ApiRequest {}

    fn decompose_api_request(_api_request: Self::ApiRequest) -> (Vec<Self::DataItem>, Self) {
        (Vec::new(), TestGroupingParams)
    }
}

impl ApiEndpont for TestApiEndpoint {
    type ApiRequest = ();
    type ApiResponseItem = ();
    type DataItem = ();
    type GroupingParams = TestGroupingParams;
}

fn client(data_count: usize) -> RequestClient<TestApiEndpoint> {
    let (_, client) = RequestClient::new(vec![(); data_count], Uuid::new_v4());
    client
}

#[test]
fn given_request__when_retrieved__should_give_correct_data_count() {
    let client = client(12);
    let mut store = RequestStoreV2::new(2);
    store.force_store(client);

    let (data_size, _) = store.drain();

    assert_eq!(data_size, 12)
}

#[test]
fn given_request__when_stored__should_return_request_if_larger_than_configured_max() {
    let client = client(2);
    let mut store = RequestStoreV2::new(1);
    let result = store.try_store(client);

    assert!(result.is_some(), "Should return request back.");

    let (data_size, data) = store.drain();

    assert_eq!(data_size, 0);
    assert!(data.is_empty())
}

#[test]
fn new_store_is_empty() {
    let mut store = RequestStoreV2::<TestApiEndpoint>::new(4);
    assert!(store.is_empty());
    let (data_size, data) = store.drain();
    assert_eq!(data_size, 0);
    assert!(data.is_empty());
}

#[test]
fn request_that_fills_the_store_exactly_is_admitted() {
    let mut store = RequestStoreV2::new(5);
    assert!(store.try_store(client(3)).is_none());
    assert!(store.try_store(client(2)).is_none());
    assert!(!store.is_empty());
    let (data_size, data) = store.drain();
    assert_eq!(data_size, 5);
    assert_eq!(data.len(), 2);
}

#[test]
fn request_one_item_over_the_bound_is_rejected_and_store_unchanged() {
    let mut store = RequestStoreV2::new(5);
    assert!(store.try_store(client(3)).is_none());
    let rejected = store.try_store(client(3));
    assert_eq!(rejected.map(|req| req.data.len()), Some(3));
    let (data_size, data) = store.drain();
    assert_eq!(data_size, 3);
    assert_eq!(data.len(), 1);
}

#[test]
fn rejected_request_comes_back_with_its_own_id_and_data() {
    let id = Uuid::new_v4();
    let (_, req) = RequestClient::<TestApiEndpoint>::new(vec![(); 7], id);
    let mut store = RequestStoreV2::new(6);
    let rejected = store.try_store(req).expect("seven items do not fit six");
    assert_eq!(rejected.handle.client_id, id);
    assert_eq!(rejected.data.len(), 7);
    assert!(store.is_empty());
}

#[test]
fn store_with_bound_zero_admits_only_empty_requests() {
    let mut store = RequestStoreV2::new(0);
    assert!(store.try_store(client(0)).is_none());
    assert!(store.try_store(client(1)).is_some());
    let (data_size, data) = store.drain();
    assert_eq!(data_size, 0);
    assert_eq!(data.len(), 1);
}

#[test]
fn force_store_goes_past_the_bound_and_counts_every_item() {
    let mut store = RequestStoreV2::new(2);
    store.force_store(client(2));
    store.force_store(client(5));
    let (data_size, data) = store.drain();
    assert_eq!(data_size, 7);
    assert_eq!(data.len(), 2);
}

#[test]
fn drain_keeps_insertion_order_and_resets_the_store() {
    let first = Uuid::new_v4();
    let second = Uuid::new_v4();
    let third = Uuid::new_v4();
    let mut store = RequestStoreV2::<TestApiEndpoint>::new(10);
    assert!(store.try_store(RequestClient::new(vec![(); 1], first).1).is_none());
    assert!(store.try_store(RequestClient::new(vec![(); 2], second).1).is_none());
    store.force_store(RequestClient::new(vec![(); 30], third).1);
    let (data_size, data) = store.drain();
    assert_eq!(data_size, 33);
    let ids: Vec<Uuid> = data.iter().map(|req| req.handle.client_id).collect();
    assert_eq!(ids, vec![first, second, third]);
    assert!(store.is_empty());
    let (again_size, again) = store.drain();
    assert_eq!(again_size, 0);
    assert!(again.is_empty());
    assert!(store.try_store(client(10)).is_none());
}

#[test]
fn request_whose_size_overflows_the_count_is_rejected() {
    let mut store = RequestStoreV2::new(usize::MAX);
    assert!(store.try_store(client(usize::MAX)).is_none());
    assert!(store.try_store(client(1)).is_some());
    let (data_size, _) = store.drain();
    assert_eq!(data_size, usize::MAX);
}
