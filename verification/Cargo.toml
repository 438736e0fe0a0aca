[package]
name = "zbm_installer"
version = "0.1.0"
edition = "2021"
publish = false

[dependencies]
bytesize = { version = "=2.7.0", features = ["serde"] }
clap = { version = "=4.6.7", features = ["derive"] }
env_logger = "=0.11.11"
inotify = "=0.11.5"
libnotcurses-sys = "*"
log = "=0.4.34"
nix = { version = "=0.31.3", features = ["user"] }
serde = { version = "=1.0.229", features = ["derive"] }
thiserror = "=2.0.21"
