[package]
name = "miden_node"
version = "0.1.0"
edition = "2021"
publish = false

[dependencies]
anyhow = "1"
clap = { version = "4", features = ["derive", "env"] }
fs-err = "3"
futures = { version = "0.3", default-features = false, features = ["std"] }
humantime = "2"
indexmap = "2"
miden-protocol = { version = "0.14.5", default-features = false, features = ["std"] }
miden-standards = { version = "0.14.5", default-features = false, features = ["std"] }
miden-tx = { version = "0.14.5", default-features = false, features = ["std"] }
rand = "0.9"
rand_chacha = "0.9"
serde = { version = "1", features = ["derive"] }
thiserror = "2"
tokio = { version = "1", features = ["macros", "net", "rt-multi-thread", "sync", "time"] }
tokio-stream = { version = "0.1", features = ["net"] }
toml = "0.9"
tonic = { version = "0.14", default-features = false, features = ["codegen", "router", "server"] }
tonic-health = { version = "0.14", default-features = false }
tonic-reflection = { version = "0.14", default-features = false, features = ["server"] }
tonic-web = "0.14"
tower-http = { version = "0.6", features = ["catch-panic", "cors", "trace"] }
tracing = { version = "0.1", default-features = false, features = ["std"] }

[dev-dependencies]
tempfile = "3"
