//! Drive a long-lived Node.js process as a read-eval-print loop: the script
//! that turns Node.js into the loop, the command that starts it, the bytes of
//! one request, and the reading of one answer up to its end-of-output marker.

pub mod config;
pub mod error;
pub mod protocol;
pub mod text;

pub use config::{default_build_command, BuildCommand, Config, ConfigBuilder, DefaultBuildCommand};
pub use error::{ConfigBuilderError, Error};
