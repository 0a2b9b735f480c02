//! Temporary docker containers for running code.
//!
//! A [`SandboxBuilder`] collects what a container is to run and the files it is to see, and
//! builds a [`Sandbox`]. Executing that gives a [`CompletedSandbox`] with what the code wrote, how
//! it ended, and the mounted files as it left them.
//!
//! The crate decides; it does not act. Where a directory is to be created, a file written or
//! docker run, it says so, and the caller hands back what came of it.
pub mod builder;
pub mod command;
pub mod completed;
pub mod duration;
pub mod error;
pub mod laws;
pub mod mount;
pub mod output;
pub mod path;
pub mod run;
pub mod sandbox;
pub mod text;

pub use builder::SandboxBuilder;
pub use completed::CompletedSandbox;
pub use duration::Duration;
pub use error::{Error, Result};
pub use mount::MountId;
pub use output::{ExitStatus, Output};
pub use path::PathStyle;
pub use sandbox::Sandbox;
