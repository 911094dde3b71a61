use batch_proxy::api::endpoint::embed_endpoint::{
    EmbedApiRequest, EmbedApiRequestInputs, EmbedRequestGroupingParams,
};
use batch_proxy::api::endpoint::GroupingParams;

fn texts(items: &[&str]) -> Vec<String> {
    items.iter().map(|item| item.to_string()).collect()
}

fn full_key() -> EmbedRequestGroupingParams {
    EmbedRequestGroupingParams {
        dimensions: Some(384),
        normalize: Some(true),
        prompt_name: Some("query".to_string()),
        truncate: Some(false),
        truncation_direction: Some("Right".to_string()),
    }
}

fn empty_key() -> EmbedRequestGroupingParams {
    EmbedRequestGroupingParams {
        dimensions: None,
        normalize: None,
        prompt_name: None,
        truncate: None,
        truncation_direction: None,
    }
}

fn list_of(inputs: &EmbedApiRequestInputs) -> Option<&Vec<String>> {
    match inputs {
        EmbedApiRequestInputs::Vec(items) => Some(items),
        EmbedApiRequestInputs::Str(_) => None,
    }
}

fn key_of(request: &EmbedApiRequest) -> EmbedRequestGroupingParams {
    EmbedRequestGroupingParams {
        dimensions: request.dimensions,
        normalize: request.normalize,
        prompt_name: request.prompt_name.clone(),
        truncate: request.truncate,
        truncation_direction: request.truncation_direction.clone(),
    }
}

#[test]
fn to_request_puts_data_in_list_form_and_copies_every_parameter() {
    let request = full_key().to_request(texts(&["a", "b"]));
    assert_eq!(list_of(&request.inputs), Some(&texts(&["a", "b"])));
    assert_eq!(request.dimensions, Some(384));
    assert_eq!(request.normalize, Some(true));
    assert_eq!(request.prompt_name, Some("query".to_string()));
    assert_eq!(request.truncate, Some(false));
    assert_eq!(request.truncation_direction, Some("Right".to_string()));
}

#[test]
fn to_request_keeps_absent_parameters_absent() {
    let request = empty_key().to_request(texts(&["x"]));
    assert_eq!(list_of(&request.inputs), Some(&texts(&["x"])));
    assert_eq!(request.dimensions, None);
    assert_eq!(request.normalize, None);
    assert_eq!(request.prompt_name, None);
    assert_eq!(request.truncate, None);
    assert_eq!(request.truncation_direction, None);
}

#[test]
fn to_request_with_no_data_gives_an_empty_list() {
    let request = full_key().to_request(Vec::new());
    assert_eq!(list_of(&request.inputs), Some(&Vec::new()));
}

#[test]
fn decompose_turns_a_single_text_into_a_list_of_one() {
    let request = EmbedApiRequest {
        inputs: EmbedApiRequestInputs::Str("hello".to_string()),
        dimensions: Some(8),
        normalize: None,
        prompt_name: None,
        truncate: Some(true),
        truncation_direction: None,
    };
    let (data, key) = EmbedRequestGroupingParams::decompose_api_request(request);
    assert_eq!(data, texts(&["hello"]));
    assert_eq!(
        key,
        EmbedRequestGroupingParams {
            dimensions: Some(8),
            normalize: None,
            prompt_name: None,
            truncate: Some(true),
            truncation_direction: None,
        }
    );
}

#[test]
fn decompose_keeps_a_list_in_order() {
    let request = EmbedApiRequest {
        inputs: EmbedApiRequestInputs::Vec(texts(&["c", "a", "b"])),
        dimensions: None,
        normalize: Some(false),
        prompt_name: Some("p".to_string()),
        truncate: None,
        truncation_direction: Some("Left".to_string()),
    };
    let (data, key) = EmbedRequestGroupingParams::decompose_api_request(request);
    assert_eq!(data, texts(&["c", "a", "b"]));
    assert_eq!(key.dimensions, None);
    assert_eq!(key.normalize, Some(false));
    assert_eq!(key.prompt_name, Some("p".to_string()));
    assert_eq!(key.truncate, None);
    assert_eq!(key.truncation_direction, Some("Left".to_string()));
}

#[test]
fn decompose_then_assemble_gives_the_request_back() {
    let request = full_key().to_request(texts(&["d1", "d2", "d3"]));
    let (data, key) = EmbedRequestGroupingParams::decompose_api_request(request);
    let rebuilt = key.to_request(data);
    assert_eq!(list_of(&rebuilt.inputs), Some(&texts(&["d1", "d2", "d3"])));
    assert_eq!(key_of(&rebuilt), full_key());
}

#[test]
fn decompose_then_assemble_normalises_a_single_text() {
    let request = EmbedApiRequest {
        inputs: EmbedApiRequestInputs::Str("only".to_string()),
        dimensions: None,
        normalize: None,
        prompt_name: None,
        truncate: None,
        truncation_direction: None,
    };
    let (data, key) = EmbedRequestGroupingParams::decompose_api_request(request);
    let rebuilt = key.to_request(data);
    assert_eq!(list_of(&rebuilt.inputs), Some(&texts(&["only"])));
    assert_eq!(key_of(&rebuilt), empty_key());
}

#[test]
fn assemble_then_decompose_gives_key_and_data_back() {
    let (data, key) =
        EmbedRequestGroupingParams::decompose_api_request(full_key().to_request(texts(&["q"])));
    assert_eq!(data, texts(&["q"]));
    assert_eq!(key, full_key());
}

#[test]
fn keys_are_equal_when_all_five_parameters_are() {
    assert!(full_key() == full_key());
    assert!(empty_key() == empty_key());
    assert!(full_key() == full_key().clone());
}

#[test]
fn keys_differ_when_any_one_parameter_differs() {
    let base = full_key();
    assert!(base != EmbedRequestGroupingParams { dimensions: Some(385), ..full_key() });
    assert!(base != EmbedRequestGroupingParams { normalize: Some(false), ..full_key() });
    assert!(base != EmbedRequestGroupingParams { prompt_name: Some("doc".to_string()), ..full_key() });
    assert!(base != EmbedRequestGroupingParams { truncate: Some(true), ..full_key() });
    assert!(
        base != EmbedRequestGroupingParams {
            truncation_direction: Some("Left".to_string()),
            ..full_key()
        }
    );
}

#[test]
fn an_absent_parameter_differs_from_every_present_one() {
    assert!(EmbedRequestGroupingParams { dimensions: Some(0), ..empty_key() } != empty_key());
    assert!(EmbedRequestGroupingParams { normalize: Some(false), ..empty_key() } != empty_key());
    assert!(
        EmbedRequestGroupingParams { prompt_name: Some(String::new()), ..empty_key() }
            != empty_key()
    );
    assert!(EmbedRequestGroupingParams { truncate: Some(false), ..empty_key() } != empty_key());
    assert!(
        EmbedRequestGroupingParams { truncation_direction: Some(String::new()), ..empty_key() }
            != empty_key()
    );
}

#[test]
fn default_inputs_is_the_empty_list() {
    let inputs = EmbedApiRequestInputs::default();
    assert_eq!(list_of(&inputs), Some(&Vec::new()));
}
