//! The session engine of an interactive remote-execution client: given a
//! host, environment, stack and service, it locates a running container in a
//! container-orchestration platform, prepares an authenticated exec channel,
//! and drives the interactive session — escape-character scanning of local
//! input, fair merging of local and remote frames, the paginated container
//! resolution, and the one-retry authentication policy.  All I/O stays with
//! the caller: every function here computes from plain values, under a
//! verified contract.

pub mod and_select;
pub mod cli;
pub mod config;
pub mod escape;
pub mod handler;
pub mod log;
pub mod options;
pub mod pattern;
pub mod rancher;
pub mod text;
pub mod token;
