//! Runs a shell command inside a container: plans the mounts and the
//! container command line, drives the container's lifecycle, and decides
//! how a finished run is reported.

pub mod text;
pub mod cli;
pub mod config;
pub mod plan;
pub mod engine;
pub mod walker;
pub mod notify;
