//! Choices the chat application makes when it prepares its model.
use vstd::prelude::*;

use crate::text::same_text;

verus! {

/// The model the tool-using chat runs.
pub const MODEL_NAME: &'static str = "qwen2.5-7b";

/// The most tokens the tool-using chat lets the model produce per request.
pub const MAX_TOKENS: u32 = 512;

/// The model the plain chat runs.
pub const PLAIN_MODEL_NAME: &'static str = "phi-4-mini";

/// The most tokens the plain chat lets the model produce per request.
pub const PLAIN_MAX_TOKENS: u32 = 1024;

/// The execution provider whose freshly downloaded model needs its inference
/// description rewritten.
pub const QNN_PROVIDER: &'static str = "QNNExecutionProvider";

/// The file, in the model's directory, that holds the inference description.
pub const INFERENCE_MODEL_FILE: &'static str = "inference_model.json";

/// Decides, for one discovered execution provider, whether the inference
/// description of a freshly downloaded model is rewritten for it: only for the QNN
/// provider, and only when it is registered.
pub fn needs_inference_model_fix(provider_name: &str, is_registered: bool) -> (r: bool)
    ensures
        r <==> (provider_name@ == QNN_PROVIDER@ && is_registered),
{
    is_registered && same_text(provider_name, QNN_PROVIDER)
}

} // verus!
