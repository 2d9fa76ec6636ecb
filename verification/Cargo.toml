[package]
name = "qi"
version = "0.1.0"
edition = "2021"
publish = false

[dependencies]
async-trait = "0.1"
bytes = "1"
derive_more = { version = "2", features = ["display", "from", "into"] }
either = "1"
futures = "0.3"
once_cell = "1"
pin-project-lite = "0.2"
proc-macro2 = "1"
quote = "1"
sealed = "0.6"
serde = { version = "1", features = ["derive"] }
serde_with = "3"
syn = { version = "2", features = ["full", "extra-traits"] }
sysinfo = "*"
thiserror = "2"
tokio = { version = "1", features = ["macros", "net", "rt", "rt-multi-thread", "sync", "time"] }
tokio-stream = { version = "0.1", features = ["sync"] }
tokio-util = { version = "0.7", features = ["rt"] }
tracing = "0.1"
uuid = { version = "1", features = ["v4"] }
