//! A request-triggered code-quality analysis pipeline for Cangjie repositories.
//!
//! The library holds the pipeline's logic: naming and tearing down per-request
//! workspaces, deciding when the analyzer runtime must be unpacked, building the
//! analyzer's command line and reading its outcome, normalizing findings, resolving
//! the package name from the manifest, and the per-request state machine that
//! guarantees the workspace is released on every path.

pub mod text;

pub mod models;
pub mod analysis;
pub mod utils;
pub mod repository;
pub mod storage;
pub mod request;
pub mod pipeline;
