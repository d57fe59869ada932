//! A verified adapter between a provider-neutral inference model and the wire format of
//! Anthropic models served through Vertex AI: request construction and message
//! normalization, response and stream decoding, and error classification.

pub mod error;
pub mod json;
pub mod normalize;
pub mod provider;
pub mod request;
pub mod response;
pub mod stream;
pub mod types;
pub mod usage;
pub mod wire;
