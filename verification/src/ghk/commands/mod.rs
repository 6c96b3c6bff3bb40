//! The commands of the helper. Each is a function of what is known so far.

pub mod branch;
pub mod clone;
pub mod config;
pub mod create;
pub mod diff;
pub mod fork;
pub mod history;
pub mod ignore;
pub mod init;
pub mod license;
pub mod login;
pub mod logout;
pub mod open;
pub mod pull;
pub mod push;
pub mod setup;
pub mod status;
pub mod undo;
pub mod user;
