//! A GitHub automation tool: its plugin host, and the decisions of its
//! commands.
//!
//! The crate reads no file, starts no process and prints nothing. What the
//! host found comes in as plain values; what the host is to do or to print
//! goes out as plain values, what a plugin's script prints among them. The
//! one thing that reaches outside is the HTTP client which the sandbox gives
//! to a script.

pub mod cli;
pub mod ghk;
pub mod git;
pub mod github;
pub mod plugins;
pub mod text;
pub mod utils;
pub mod views;
