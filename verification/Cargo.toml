[package]
name = "capsule_run"
version = "0.1.0"
edition = "2021"
publish = false

[dependencies]
caps = "0.5"
chrono = "0.4"
clap = { version = "4", features = ["derive"] }
libc = "0.2"
libseccomp = "0.3"
nix = { version = "0.29", features = ["fs", "mount", "process", "sched", "signal", "user"] }
serde = { version = "1", features = ["derive"] }
serde_json = "1"
thiserror = "1"
tokio = { version = "1", features = ["macros", "rt-multi-thread", "time"] }
toml = "0.8"
uuid = { version = "1", features = ["v4"] }
