[package]
name = "devenv"
version = "0.1.0"
edition = "2021"
publish = false

[dependencies]
apt-pkg-native = "*"
clap = { version = "*", features = ["derive"] }
directories = "*"
ipc-channel = "*"
libmount = "*"
log = "*"
nix = { version = "*", features = ["feature", "fs", "mount", "process", "sched"] }
packageurl = "*"
semver = "*"
serde = { version = "*", features = ["derive"] }
serde_derive = "*"
simple_logger = "*"
toml = "*"
uuid = { version = "*", features = ["v4"] }
