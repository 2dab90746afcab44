//! Diff model, diff parsing, patch synthesis and line classification for a
//! Git client, with machine-checked contracts.

pub mod blame;
pub mod classify;
pub mod classify_laws;
pub mod command;
pub mod config;
pub mod conflict;
pub mod diff;
pub mod engine;
pub mod error;
pub mod github;
pub mod history;
pub mod parser;
pub mod patch;
pub mod patch_laws;
pub mod prompts;
pub mod pull_request;
pub mod provider;
pub mod recent;
pub mod repository;
pub mod staging;
pub mod status;
pub mod strings;
pub mod text;
pub mod watcher;
