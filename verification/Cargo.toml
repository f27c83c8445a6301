[package]
name = "edge_kite"
version = "0.1.0"
edition = "2021"
publish = false

[dependencies]
rusqlite = { version = "*", features = ["bundled"] }
serde = { version = "1", features = ["derive"] }
serde_json = "1"
chrono = { version = "0.4", features = ["serde"] }
uuid = { version = "1", features = ["v4"] }
thiserror = "*"
tokio = { version = "1", features = ["rt-multi-thread", "macros", "time", "net"] }
reqwest = { version = "*", default-features = false, features = ["json"] }
axum = "*"
tower-http = { version = "*", features = ["cors"] }
sysinfo = "*"
clap = { version = "4", features = ["derive"] }
tracing = "0.1"
tracing-subscriber = "0.3"
config = { version = "*", default-features = false, features = ["toml"] }

[dev-dependencies]
tempfile = "3"
