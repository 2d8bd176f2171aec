//! Decision core of a declarative workstation bootstrapper.
//!
//! The crate holds the rules of the bootstrapper: which steps run and in
//! which order, how a run advances and aborts, when an elevated-privilege
//! ticket may be trusted, and what each step decides from the facts it is
//! given. Everything that touches the terminal, the file system or a child
//! process lives with the caller, which performs the actions this crate
//! asks for and reports back what happened.

pub mod command;
pub mod config;
pub mod error;
pub mod examples;
pub mod runner;
pub mod steps;
pub mod style;
pub mod sudo;
pub mod text;
pub mod util;
