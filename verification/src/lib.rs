//! The decisions of a Model Context Protocol server for Datadog: how user
//! input is cleaned and checked, which tools may run and which responses may
//! be cached, how responses are summarized and rendered, and how the local
//! response cache is named, bounded and read back. The server program around
//! it makes the Datadog requests and does the file and network I/O.
pub mod text;
pub mod sanitize;
pub mod input_validation;
pub mod ids;
pub mod errors;
pub mod output;
pub mod cache;
pub mod state;
pub mod server;
pub mod response;
pub mod tools;
pub mod tool_inputs;
