use ort_genai::config::{HardwareDeviceType, MODEL_BYTES_OVERLAY};
use ort_genai::generator_params::GuidanceTypes;
use ort_genai::tokenizer::{tokenizer_option_arguments, TokenizerOption};

#[test]
fn hardware_device_type_names() {
    assert_eq!(HardwareDeviceType::CPU.name(), "CPU");
    assert_eq!(HardwareDeviceType::GPU.name(), "GPU");
    assert_eq!(HardwareDeviceType::NPU.name(), "NPU");
}

#[test]
fn guidance_type_names() {
    assert_eq!(GuidanceTypes::JsonSchema.name(), "json_schema");
    assert_eq!(GuidanceTypes::Regex.name(), "regex");
    assert_eq!(GuidanceTypes::LarkGrammer.name(), "lark_grammar");
}

#[test]
fn tokenizer_option_pairs() {
    assert_eq!(TokenizerOption::AddSpecialTokens(true).into_pair(), ("add_special_tokens", "1"));
    assert_eq!(TokenizerOption::AddSpecialTokens(false).into_pair(), ("add_special_tokens", "0"));
    assert_eq!(TokenizerOption::SkipSpecialTokens(true).into_pair(), ("skip_special_tokens", "1"));
    assert_eq!(TokenizerOption::SkipSpecialTokens(false).into_pair(), ("skip_special_tokens", "0"));
}

#[test]
fn tokenizer_option_lists_are_parallel() {
    let (keys, values) = tokenizer_option_arguments(&[
        TokenizerOption::SkipSpecialTokens(true),
        TokenizerOption::AddSpecialTokens(false),
    ]);
    assert_eq!(keys, vec!["skip_special_tokens", "add_special_tokens"]);
    assert_eq!(values, vec!["1", "0"]);
    let (k, v) = tokenizer_option_arguments(&[]);
    assert!(k.is_empty() && v.is_empty());
}

#[test]
fn overlay_enables_direct_model_bytes() {
    let v: serde_json::Value = serde_json::from_str(MODEL_BYTES_OVERLAY).unwrap();
    assert_eq!(v["session"]["use_ort_model_bytes_directly"], "1");
}
