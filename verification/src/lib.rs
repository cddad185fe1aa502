//! Library behind a small command-line front end for Linux kernel
//! development environments.  A project-local TOML settings file describes
//! the kernel under test, optional filesystem test suites and virtualization
//! options; the library parses and validates those settings and renders the
//! build-system configuration artifact that the external build toolchain
//! consumes, together with the plan of source-fetch calls and the extra
//! environment variables the eventual build invocation needs.

pub mod config;
pub mod generate;
pub mod settings;
pub mod text;
pub mod utils;
