[package]
name = "facts"
version = "0.1.0"
edition = "2021"
publish = false

[dependencies]
rand = "*"
axum = "*"
tokio = { version = "*", features = ["rt-multi-thread", "macros", "net"] }
clap = { version = "*", features = ["derive", "env"] }
serde = { version = "*", features = ["derive"] }
tracing = "*"
tracing-subscriber = { version = "*", features = ["json"] }
tower-http = { version = "*", features = ["trace"] }

[dev-dependencies]
fake = "*"
