[package]
name = "lockinspiel"
version = "0.1.0"
edition = "2021"
publish = false

[dependencies]
jiff = { version = "*", features = ["serde"] }
uuid = { version = "*", features = ["serde"] }
serde = { version = "*", features = ["derive"] }
serde_json = "*"
clap = { version = "*", features = ["derive"] }
diesel = { version = "*", default-features = false, features = ["postgres_backend", "uuid", "serde_json", "32-column-tables"] }
diesel-async = { version = "*", features = ["postgres"] }
axum = "*"
tokio = { version = "*", features = ["macros", "rt-multi-thread", "net", "signal"] }
tracing = "*"
