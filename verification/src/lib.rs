//! Decision logic of a lightweight development-container tool: the mount
//! registry, the overlay filesystem composer, the container lifecycle engine
//! and the task protocol, each stated over mathematical models and verified.
//!
//! The library decides and performs nothing: its functions take what was
//! read from the system as plain values and hand out what is to be done.

pub mod error;
pub mod text;
pub mod path;
pub mod mount;
pub mod kernel;
pub mod filesystem;
pub mod host;
pub mod dependency;
pub mod provider;
pub mod apt;
pub mod container;
pub mod teardown;
pub mod protocol;
pub mod configuration;
pub mod options;
pub mod devenv;
