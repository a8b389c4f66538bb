[package]
name = "noj_sandbox"
version = "0.1.0"
edition = "2021"
publish = false

[dependencies]
toml = "*"
clap = { version = "*", features = ["derive"] }
dlopen = "*"
dlopen_derive = "*"
cgroups-rs = "*"
nix = { version = "*", features = ["signal", "process"] }
tokio = { version = "*", features = ["rt-multi-thread", "macros", "process", "sync", "time"] }
once_cell = "*"
