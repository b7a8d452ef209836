//! Client engine for a streaming chat protocol: envelope construction,
//! batch framing, reply classification and the per-session turn discipline.

pub mod classify;
pub mod doc;
pub mod frame;
pub mod json;
pub mod sydney;
pub mod types;
pub mod url;

pub use doc::Json;
pub use sydney::{BingAIWs, SydneyError, SydneyResponse};
pub use types::Tone;
