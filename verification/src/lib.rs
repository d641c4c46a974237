//! An autonomous research agent around a local chat model: the agent loop
//! replays a transcript of turns to the model, executes the web-search and
//! web-fetch calls the model requests, feeds truncated results back, and
//! stops on a final answer or when the iteration budget runs out.
//!
//! The loop's decisions, the tool-call protocol, the truncation policies and
//! the status-indicator state machine are verified here; the process edge
//! (argument parsing, HTTP, terminal and browser output) drives these
//! functions from outside.
pub mod agent;
pub mod cli;
pub mod client;
pub mod config;
pub mod error;
pub mod formatter;
pub mod loading;
pub mod markdown_preview;
pub mod ollama_local;
pub mod text;
