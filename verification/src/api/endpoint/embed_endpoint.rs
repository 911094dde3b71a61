//! The embedding endpoint: its request, its grouping key, and the two
//! conversions between them.

use crate::api::endpoint::{built, decomposed, lawful_keys, ApiEndpont, GroupingParams};
use std::marker::PhantomData;
use vstd::prelude::*;
use vstd::std_specs::cmp::PartialEqSpec;

verus! {

/// The `inputs` field of an embedding request: a list of texts, or one text.
#[derive(Debug)]
pub enum EmbedApiRequestInputs {
    Vec(Vec<String>),
    Str(String),
}

/// A backend-shaped embedding request. The five optional fields are the
/// tuning parameters; an absent field differs from every present one.
#[derive(Debug)]
pub struct EmbedApiRequest {
    pub inputs: EmbedApiRequestInputs,
    pub dimensions: Option<usize>,
    pub normalize: Option<bool>,
    pub prompt_name: Option<String>,
    pub truncate: Option<bool>,
    pub truncation_direction: Option<String>,
}

/// The embedding endpoint, for response items of type `R`.
pub struct EmbedApiEndpoint<R> {
    response_item: PhantomData<R>,
}

/// The grouping key of an embedding request: its five tuning parameters.
#[derive(Debug, Eq, Hash, Clone)]
pub struct EmbedRequestGroupingParams {
    pub dimensions: Option<usize>,
    pub normalize: Option<bool>,
    pub prompt_name: Option<String>,
    pub truncate: Option<bool>,
    pub truncation_direction: Option<String>,
}

/// The characters of each text of a list.
pub open spec fn texts(items: Seq<String>) -> Seq<Seq<char>> {
    items.map_values(|item: String| item@)
}

/// The characters of an optional text.
pub open spec fn optional_text(text: Option<String>) -> Option<Seq<char>> {
    match text {
        Some(t) => Some(t@),
        None => None,
    }
}

/// What an `inputs` field holds.
pub enum EmbedInputsView {
    Vec(Seq<Seq<char>>),
    Str(Seq<char>),
}

impl EmbedInputsView {
    /// The texts as a list: a single text counts as a list of one.
    pub open spec fn items(self) -> Seq<Seq<char>> {
        match self {
            EmbedInputsView::Vec(items) => items,
            EmbedInputsView::Str(item) => seq![item],
        }
    }
}

/// What a grouping key holds.
pub struct GroupingKey {
    pub dimensions: Option<usize>,
    pub normalize: Option<bool>,
    pub prompt_name: Option<Seq<char>>,
    pub truncate: Option<bool>,
    pub truncation_direction: Option<Seq<char>>,
}

/// What an embedding request holds.
pub struct EmbedApiRequestView {
    pub inputs: EmbedInputsView,
    pub key: GroupingKey,
}

impl EmbedApiRequestView {
    /// The same request with `inputs` in list form.
    pub open spec fn normalized(self) -> EmbedApiRequestView {
        EmbedApiRequestView { inputs: EmbedInputsView::Vec(self.inputs.items()), key: self.key }
    }
}

/// The request that carries `items` under `key`.
pub open spec fn assembled(key: GroupingKey, items: Seq<Seq<char>>) -> EmbedApiRequestView {
    EmbedApiRequestView { inputs: EmbedInputsView::Vec(items), key }
}

impl View for EmbedApiRequestInputs {
    type V = EmbedInputsView;

    open spec fn view(&self) -> EmbedInputsView {
        match self {
            EmbedApiRequestInputs::Vec(items) => EmbedInputsView::Vec(texts(items@)),
            EmbedApiRequestInputs::Str(item) => EmbedInputsView::Str(item@),
        }
    }
}

impl View for EmbedRequestGroupingParams {
    type V = GroupingKey;

    open spec fn view(&self) -> GroupingKey {
        GroupingKey {
            dimensions: self.dimensions,
            normalize: self.normalize,
            prompt_name: optional_text(self.prompt_name),
            truncate: self.truncate,
            truncation_direction: optional_text(self.truncation_direction),
        }
    }
}

impl View for EmbedApiRequest {
    type V = EmbedApiRequestView;

    open spec fn view(&self) -> EmbedApiRequestView {
        EmbedApiRequestView {
            inputs: self.inputs@,
            key: GroupingKey {
                dimensions: self.dimensions,
                normalize: self.normalize,
                prompt_name: optional_text(self.prompt_name),
                truncate: self.truncate,
                truncation_direction: optional_text(self.truncation_direction),
            },
        }
    }
}

impl Default for EmbedApiRequestInputs {
    /// The empty list.
    fn default() -> (inputs: Self)
        ensures
            inputs@ == EmbedInputsView::Vec(Seq::empty()),
    {
        let items: Vec<String> = Vec::new();
        assert(texts(items@) =~= Seq::empty());
        EmbedApiRequestInputs::Vec(items)
    }
}

/// Whether two optional texts hold the same characters.
fn same_text(left: &Option<String>, right: &Option<String>) -> (same: bool)
    ensures
        same == (optional_text(*left) == optional_text(*right)),
{
    match (left, right) {
        (Some(l), Some(r)) => *l == *r,
        (None, None) => true,
        _ => false,
    }
}

/// A copy of an optional text.
fn copy_text(text: &Option<String>) -> (copy: Option<String>)
    ensures
        optional_text(copy) == optional_text(*text),
{
    match text {
        Some(t) => Some(t.clone()),
        None => None,
    }
}

impl PartialEq for EmbedRequestGroupingParams {
    fn eq(&self, other: &Self) -> (same: bool) {
        self.dimensions == other.dimensions && self.normalize == other.normalize && same_text(
            &self.prompt_name,
            &other.prompt_name,
        ) && self.truncate == other.truncate && same_text(
            &self.truncation_direction,
            &other.truncation_direction,
        )
    }
}

impl vstd::std_specs::cmp::PartialEqSpecImpl for EmbedRequestGroupingParams {
    open spec fn obeys_eq_spec() -> bool {
        true
    }

    /// Two keys are equal when all five parameters are.
    open spec fn eq_spec(&self, other: &Self) -> bool {
        self@ == other@
    }
}

impl GroupingParams for EmbedRequestGroupingParams {
    type DataItem = String;

    type ApiRequest = EmbedApiRequest;

    /// The request whose `inputs` is the list `data` and whose other fields
    /// are those of the key.
    fn to_request(&self, data: Vec<String>) -> (api_request: EmbedApiRequest)
        ensures
            api_request.inputs == EmbedApiRequestInputs::Vec(data),
            api_request@ == assembled(self@, texts(data@)),
    {
        EmbedApiRequest {
            inputs: EmbedApiRequestInputs::Vec(data),
            truncate: self.truncate,
            normalize: self.normalize,
            dimensions: self.dimensions,
            prompt_name: copy_text(&self.prompt_name),
            truncation_direction: copy_text(&self.truncation_direction),
        }
    }

    /// The texts of the request, a single text as a list of one, and the
    /// request's five tuning parameters as its key.
    fn decompose_api_request(api_request: EmbedApiRequest) -> (parts: (
        Vec<String>,
        EmbedRequestGroupingParams,
    ))
        ensures
            api_request.inputs matches EmbedApiRequestInputs::Vec(items) ==> parts.0 == items,
            api_request.inputs matches EmbedApiRequestInputs::Str(item) ==> parts.0@ == seq![item],
            texts(parts.0@) == api_request@.inputs.items(),
            parts.1@ == api_request@.key,
    {
        let EmbedApiRequest {
            inputs,
            dimensions,
            normalize,
            prompt_name,
            truncate,
            truncation_direction,
        } = api_request;

        let request_data = match inputs {
            EmbedApiRequestInputs::Str(input) => vec![input],
            EmbedApiRequestInputs::Vec(inputs) => inputs,
        };

        let request_params = EmbedRequestGroupingParams {
            truncate,
            normalize,
            dimensions,
            prompt_name,
            truncation_direction,
        };

        (request_data, request_params)
    }
}

impl<R: Send + Sync + std::fmt::Debug + 'static> ApiEndpont for EmbedApiEndpoint<R> {
    type ApiRequest = EmbedApiRequest;

    type ApiResponseItem = R;

    type DataItem = String;

    type GroupingParams = EmbedRequestGroupingParams;
}

/// Decomposing a request and assembling the parts again gives the request
/// back, with `inputs` in list form.
pub proof fn lemma_decompose_then_assemble(request: EmbedApiRequestView)
    ensures
        assembled(request.key, request.inputs.items()) == request.normalized(),
        request.inputs is Vec ==> assembled(request.key, request.inputs.items()) == request,
{
}

/// Whatever `decompose_api_request` makes of a request, `to_request` makes
/// of it the request again, with `inputs` in list form; the texts
/// themselves, not only their characters, are those of the request.
pub proof fn lemma_round_trip(
    request: EmbedApiRequest,
    data: Vec<String>,
    key: EmbedRequestGroupingParams,
    rebuilt: EmbedApiRequest,
)
    requires
        decomposed::<EmbedRequestGroupingParams>(request, data, key),
        built::<EmbedRequestGroupingParams>(key, data@, rebuilt),
    ensures
        rebuilt@ == request@.normalized(),
        rebuilt.inputs matches EmbedApiRequestInputs::Vec(items) && items@ == data@,
        request.inputs matches EmbedApiRequestInputs::Vec(items) ==> data == items,
{
}

/// Assembling a request and decomposing it gives the key and the texts back.
pub proof fn lemma_assemble_then_decompose(key: GroupingKey, items: Seq<Seq<char>>)
    ensures
        assembled(key, items).key == key,
        assembled(key, items).inputs.items() == items,
{
}

/// Two embedding keys are equal exactly when all five parameters are, an
/// absent parameter being equal to an absent one only; this equality is
/// lawful.
pub proof fn lemma_embed_keys_lawful()
    ensures
        lawful_keys::<EmbedRequestGroupingParams>(),
        forall|a: EmbedRequestGroupingParams, b: EmbedRequestGroupingParams|
            #[trigger] a.eq_spec(&b) <==> a@ == b@,
{
}

} // verus!
