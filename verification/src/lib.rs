//! Live-reload coordination for a local stylesheet build pipeline.
//!
//! The crate holds the decisions of the pipeline as verified functions over plain
//! values: the settings a deployment runs with ([`config`]), the debounced watcher
//! ([`watcher`]) with its extension filter ([`path`]), the build invoker
//! ([`invoker`]), the session coordinator ([`server`]) and the connection registry
//! of the fan-out topology ([`registry`]). Watching the file system, running the
//! compiler and talking to the network are left to the caller.
pub mod config;
pub mod invoker;
pub mod path;
pub mod registry;
pub mod server;
pub mod watcher;
