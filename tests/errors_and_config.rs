use summ_server::config::{ConfigError, Device, ModelConfig, ResourceId};
use summ_server::convert::convert_vec_to_array;
use summ_server::error::{InferError, ModelError};
use summ_server::params::DecodingParams;

fn resource(name: &str, url: &str) -> ResourceId {
    ResourceId { name: name.to_string(), url: url.to_string() }
}

fn resources() -> [ResourceId; 4] {
    [
        resource("config", "https://example.org/config.json"),
        resource("vocab", "https://example.org/vocab.json"),
        resource("merges", "https://example.org/merges.txt"),
        resource("model", "https://example.org/model.ot"),
    ]
}

#[test]
fn status_codes_follow_the_error() {
    assert_eq!(InferError::InvalidParams.status_code(), 400);
    assert_eq!(InferError::ModelUnavailable.status_code(), 503);
    assert_eq!(InferError::InferenceFailure.status_code(), 500);
}

#[test]
fn error_kinds_are_machine_readable() {
    assert_eq!(InferError::InvalidParams.kind(), "invalid_params");
    assert_eq!(InferError::ModelUnavailable.kind(), "model_unavailable");
    assert_eq!(InferError::InferenceFailure.kind(), "inference_failure");
    assert!(!InferError::InferenceFailure.message().is_empty());
}

#[test]
fn load_errors_become_model_unavailable() {
    assert_eq!(InferError::from_model_error(ModelError::LoadFailure), InferError::ModelUnavailable);
    assert_eq!(InferError::from_model_error(ModelError::DeviceUnavailable), InferError::ModelUnavailable);
}

#[test]
fn valid_config_is_accepted() {
    let [c, v, m, w] = resources();
    let cfg = ModelConfig::new(c, v, m, w, DecodingParams::new(56, 142, 3), Device::Cpu).unwrap();
    assert_eq!(cfg.defaults.max_length, 142);
    assert_eq!(cfg.device, Device::Cpu);
    assert_eq!(cfg.vocab_resource.name, "vocab");
}

#[test]
fn config_with_empty_resource_is_refused() {
    let [c, v, _, w] = resources();
    let r = ModelConfig::new(c, v, resource("", "https://example.org/merges.txt"), w, DecodingParams::new(5, 3, 0), Device::Cuda(0));
    assert_eq!(r.unwrap_err(), ConfigError::MissingResource);
}

#[test]
fn config_with_bad_defaults_is_refused() {
    let [c, v, m, w] = resources();
    let r = ModelConfig::new(c, v, m, w, DecodingParams::new(5, 3, 4), Device::Cpu);
    assert_eq!(r.unwrap_err(), ConfigError::InvalidDefaults);
}

#[test]
fn vector_becomes_array_in_order() {
    let a: [String; 3] = convert_vec_to_array(vec!["a".to_string(), "b".to_string(), "c".to_string()]);
    assert_eq!(a, ["a".to_string(), "b".to_string(), "c".to_string()]);
}
