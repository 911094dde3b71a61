//! The interface between the engine and one backend endpoint.

use vstd::prelude::*;
use vstd::std_specs::cmp::PartialEqSpec;

pub mod embed_endpoint;

verus! {

/// The grouping key of an endpoint: the parameters that two requests must
/// share to be fused into one backend request.
///
/// The trait carries no ghost items, so that code outside the verifier can
/// implement it. Contracts speak of its two methods through [`built`] and
/// [`decomposed`].
pub trait GroupingParams: Sized + Send + Sync {
    type DataItem;

    type ApiRequest;

    /// The backend request with these parameters and `data` as its items.
    fn to_request(&self, data: Vec<Self::DataItem>) -> Self::ApiRequest;

    /// The data items of a backend-shaped request and its grouping key.
    fn decompose_api_request(api_request: Self::ApiRequest) -> (Vec<Self::DataItem>, Self);
}

/// The types of one endpoint.
pub trait ApiEndpont: 'static {
    type ApiRequest: Send + Sync + std::fmt::Debug;

    type ApiResponseItem: Send + Sync + std::fmt::Debug;

    type DataItem: Send + Sync + std::fmt::Debug;

    type GroupingParams: Send + GroupingParams<
        DataItem = Self::DataItem,
        ApiRequest = Self::ApiRequest,
    > + std::hash::Hash + Eq + Clone + std::fmt::Debug;
}

/// `request` is a value that `params.to_request` may return for a list
/// that holds exactly `data`.
pub open spec fn built<K: GroupingParams>(
    params: K,
    data: Seq<K::DataItem>,
    request: K::ApiRequest,
) -> bool {
    exists|inputs: Vec<K::DataItem>|
        inputs@ == data && #[trigger] call_ensures(K::to_request, (&params, inputs), request)
}

/// `data` and `key` are what `decompose_api_request` may return for
/// `request`.
pub open spec fn decomposed<K: GroupingParams>(
    request: K::ApiRequest,
    data: Vec<K::DataItem>,
    key: K,
) -> bool {
    call_ensures(K::decompose_api_request, (request,), (data, key))
}

/// Equality of keys is what `eq_spec` says, and is an equivalence: two
/// requests may be fused exactly when their keys are equal.
pub open spec fn lawful_keys<K: PartialEq>() -> bool {
    &&& K::obeys_eq_spec()
    &&& forall|a: K| #[trigger] a.eq_spec(&a)
    &&& forall|a: K, b: K| #[trigger] a.eq_spec(&b) ==> b.eq_spec(&a)
    &&& forall|a: K, b: K, c: K|
        #![trigger a.eq_spec(&b), b.eq_spec(&c)]
        a.eq_spec(&b) && b.eq_spec(&c) ==> a.eq_spec(&c)
}

} // verus!
