//! Providers whose streams arrive as typed pieces.

pub mod gemini;
pub mod openai;
