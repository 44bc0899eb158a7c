//! Builds a NixOS container image inside a throwaway, namespace-isolated root.
//!
//! The library holds the decisions of the build: the configuration and its
//! validation, the ordered stages of the sandbox setup and of the build
//! pipeline, the sequencer that halts them on the first failure, the
//! supervision rules for the forked child, and the parsing and checking of
//! what the outside tools hand back. The program around it performs the
//! system calls, the downloads and the subprocess invocations.
pub mod alpine;
pub mod app;
pub mod builder;
pub mod config;
pub mod http;
pub mod mount;
pub mod nixos;
pub mod plan;
pub mod process;
pub mod sandbox;
pub mod text;
