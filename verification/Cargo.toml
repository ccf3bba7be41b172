[package]
name = "pg_event_trigger"
version = "0.1.0"
edition = "2021"
publish = false

[dependencies]
anyhow = "1"
pgrx = "=0.11.4"
serde = { version = "1", features = ["derive"] }
serde_json = "1"
tempfile = "3"
thiserror = "1"
tokio = { version = "1", features = ["fs", "rt-multi-thread", "signal", "time"] }
url = "=2.5.8"
wasmtime = { version = "36", default-features = false, features = ["async", "cache", "component-model", "runtime", "std"] }
