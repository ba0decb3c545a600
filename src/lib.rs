//! Product scaffolding and documentation graph, with a verified lifecycle
//! manager for out-of-process bridge runtimes.

pub mod error;
pub mod model;
pub mod text;
pub mod registry;
pub mod paths;
pub mod components;
pub mod bridge;
pub mod api;
pub mod laws;
pub mod util;
pub mod loader;
pub mod docs;
pub mod context;
pub mod setup;
pub mod engine;
