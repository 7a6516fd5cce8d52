[package]
name = "fterm"
version = "0.1.0"
edition = "2021"
publish = false

[dependencies]
anyhow = "1"
chrono = "0.4"
clap = { version = "4", features = ["derive"] }
clap_complete = "4"
glob = "0.3"
nix = { version = "0.29", features = ["fs", "user"] }
strip-ansi-escapes = "0.2"
which = "*"
