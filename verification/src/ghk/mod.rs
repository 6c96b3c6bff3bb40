//! A simple helper for git and GitHub.
//!
//! A command of the helper neither asks git or GitHub anything nor prints
//! anything itself. It is a function of what is known so far: it says what
//! to print, and either what it needs to know next or how it ended. The host
//! prints, finds out, and asks the command again.

pub mod app;
pub mod call;
pub mod commands;
pub mod config;
pub mod error;
pub mod flow;
pub mod gh;
pub mod git;
pub mod laws;
pub mod util;
