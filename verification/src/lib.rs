//! Backend logic of a desktop coding assistant: the streaming chat relay with
//! its two provider adapters, and the rules behind the project, file, git,
//! search and credential commands.

pub mod commands;
pub mod filesystem;
pub mod framing;
pub mod git;
pub mod json;
pub mod keychain;
pub mod models;
pub mod provider;
pub mod relay;
pub mod search;
pub mod terminal;
pub mod text;
