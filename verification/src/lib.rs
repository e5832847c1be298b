//! A provider-agnostic client core for large-language-model chat APIs.
//!
//! The crate holds the unified conversation model, the incremental decoders
//! that fold provider events into a response under construction, and the
//! decision logic of the tool-execution loop.

pub mod agent;
pub mod api;
pub mod client;
pub mod encoding;
pub mod json;
pub mod mcp;
pub mod model;
pub mod options;
pub mod providers;
pub mod sse;
pub mod stream;
pub mod text;
pub mod usage;
