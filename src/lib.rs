//! Typed argument records for the subcommands of the Rust package manager,
//! each rendered into the exact token sequence of a child-process invocation.
pub mod build_command;
pub mod check;
pub mod clippy;
pub mod common;
pub mod doc;
pub mod emit;
pub mod install;
pub mod metadata;
pub mod run;
pub mod rustc;
pub mod test;

pub use crate::build_command::Build;
pub use crate::check::{Check, CheckOptions};
pub use crate::clippy::Clippy;
pub use crate::common::CommonOptions;
pub use crate::doc::{Doc, DocOptions};
pub use crate::install::Install;
pub use crate::metadata::Metadata;
pub use crate::run::Run;
pub use crate::rustc::Rustc;
pub use crate::test::Test;
