//! A thin client for a generative-language dictionary provider.
//!
//! The library builds the instruction prompt and the request body for one
//! definition lookup, classifies the transport outcome, and parses the
//! provider's free-form answer into a structured [`WordDefinition`].
//! The network call itself is left to the embedding application.

pub mod definition;
pub mod errors;
pub mod extract;
pub mod gemini_dictionary;
pub mod json;
pub mod text;

pub use definition::DefinitionModel;
pub use definition::WordDefinition;
pub use errors::DictError;
pub use errors::FailureKind;
pub use extract::extract_dictionary;
pub use gemini_dictionary::define_from_transport;
pub use gemini_dictionary::GeminiDictionary;
pub use gemini_dictionary::TransportEvent;
