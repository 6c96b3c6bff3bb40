[package]
name = "github_bot_lib"
version = "0.1.0"
edition = "2021"
publish = false

[dependencies]
anyhow = "1"
auth-git2 = "*"
chrono = "0.4"
clap = { version = "4", features = ["derive"] }
clap_complete = "4"
cliclack = "*"
colored = "=3.1.1"
dialoguer = "*"
dirs = "=7.0.0"
git2 = "*"
indicatif = "*"
libc = "0.2"
reqwest = { version = "=0.13.5", features = ["blocking", "json"] }
rhai = "=1.27.0"
rhai-http = "=0.11.0"
serde = { version = "1", features = ["derive"] }
serde_json = "1"
tempfile = "3"
toml = "=1.1.8"
which = "*"
