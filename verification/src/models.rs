//! The messages that the chat providers send and receive.

pub mod ollama;
