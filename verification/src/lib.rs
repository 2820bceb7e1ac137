//! Verified core of an OpenCode-compatible agent runtime: configuration layering,
//! provider registry, session handling, HTTP adapter normalization, tools and plugins.

pub mod text;
pub mod json;
pub mod domain;
pub mod config;
pub mod layer;
pub mod loader;
pub mod providers;
pub mod registry;
pub mod session_store;
pub mod adapters;
pub mod handlers;
pub mod tools;
pub mod policy;
pub mod extensions;
pub mod pty;
pub mod plugins;
pub mod sidecar;
pub mod hosts;
pub mod state;
pub mod cli;
