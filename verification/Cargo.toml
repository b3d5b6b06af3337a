[package]
name = "people_directory"
version = "0.1.0"
edition = "2021"
publish = false

[dependencies]
axum = "=0.7.9"
config = { version = "=0.14.1", default-features = false, features = ["preserve_order"] }
dotenv = "=0.15.0"
fred = { version = "=9.4.0", features = ["serde-json"] }
serde = { version = "=1.0.229", features = ["derive"] }
serde_json = "=1.0.154"
simple-error = "=0.3.3"
sqlx = { version = "=0.8.6", default-features = false, features = ["postgres", "runtime-tokio", "uuid", "time", "migrate"] }
time = { version = "=0.3.55", features = ["serde", "macros", "formatting", "parsing"] }
tokio = { version = "=1.54.1", features = ["full"] }
tracing = "=0.1.44"
tracing-subscriber = "=0.3.23"
uuid = { version = "=1.29.0", features = ["v7", "serde"] }
