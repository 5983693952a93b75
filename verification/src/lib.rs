//! Verified core of a binding to the ONNX Runtime GenAI C API, together with the
//! decision logic of a small chat client that can call a web-search tool.
//!
//! The native handles themselves (models, tokenizers, generators, ...) live outside
//! this crate; what stands here is everything those handles decide on plain values:
//! how native status codes become errors, which strings may cross the C boundary,
//! how element types map to native codes, how many elements a tensor holds, and how
//! a streamed chat turn with tool calls is assembled.
pub mod error;
pub mod text;
pub mod element_type;
pub mod tensor;
pub mod config;
pub mod generator_params;
pub mod tokenizer;
pub mod chat;
pub mod web_search;
pub mod model_manager;
pub mod load_status;

pub use error::{error_text, Error, NativeStatus, OgaResult, OgaResultExt};
pub use element_type::{element_type_of_code, native_code, ElementType, TensorElement, NATIVE_ELEMENT_TYPE_COUNT};
pub use config::{HardwareDeviceType, MODEL_BYTES_OVERLAY};
pub use generator_params::GuidanceTypes;
pub use tokenizer::TokenizerOption;
pub use web_search::{SearchResult, SearchResults};
