//! A linker replacement that makes build scripts run in a sandbox.
//!
//! When the linker replacement links a build script, it moves the build
//! script aside and puts a wrapper in its place. The wrapper runs the build
//! script under a sandbox command that is made from a template.
//!
//! This library holds what is decided and computed on the way: the template
//! engine ([`template`]), what a wrapper does when it is run ([`shim`]), how
//! a wrapper is made ([`wrapper`], [`synthesis`]), and what the linker
//! replacement does with its arguments ([`linking`]). Processes and files
//! are left to the program that uses the library.

pub mod config;
pub mod defaults;
pub mod diagnostics;
pub mod document;
pub mod error;
pub mod linking;
pub mod paths;
pub mod pattern;
pub mod shim;
pub mod synthesis;
pub mod template;
pub mod text;
pub mod theorems;
pub mod utf8;
pub mod wrapper;
