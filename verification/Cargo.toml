[package]
name = "mpris_dbus"
version = "0.1.0"
edition = "2021"
publish = false

[dependencies]
anyhow = "1"
clap = { version = "4", features = ["derive"] }
clap_complete = "4"
libsystemd = "*"
serde = { version = "1", features = ["derive"] }
time = { version = "0.3", features = ["macros", "formatting", "local-offset"] }
tokio = { version = "1", features = ["rt", "macros", "sync", "net", "io-util", "time"] }
tracing = "0.1"
tracing-journald = "*"
tracing-subscriber = { version = "0.3", features = ["env-filter", "fmt", "registry"] }
zbus = "*"
