//! One decoder per provider protocol.

pub mod anthropic;
pub mod gemini;
pub mod openai;
