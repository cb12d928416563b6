//! A backup transfer engine: resolves a source into files, computes where each
//! lands remotely, and decides each step of an upload to object storage or to
//! a remote filesystem, with the progress of every chunk.
pub mod config;
pub mod remote_path;
pub mod progress;
pub mod remote_dir;
pub mod resolve;
pub mod transfer;
pub mod session;
pub mod schedule;
pub mod commands;
