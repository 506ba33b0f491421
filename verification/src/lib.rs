//! A build orchestrator for bare-metal operating-system payloads.
//!
//! The library resolves composite command-line tokens into lifecycle
//! commands, assembles a payload configuration (source, target, loader,
//! runner, features), derives the argument lists handed to the external
//! cross-compiler driver, and sequences the bootable-image assembly that
//! follows a successful build when a multiboot loader is configured.

pub mod app;
pub mod errors;
pub mod manifest;
pub mod payload;
pub mod pipeline;
pub mod text;

pub use errors::Error;
