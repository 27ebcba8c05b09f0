[package]
name = "matrix_goose"
version = "0.1.0"
edition = "2021"
publish = false

[dependencies]
async-trait = "0.1"
backoff = { version = "0.4", features = ["tokio"] }
bytes = "1"
bytesize = "1"
csv = "1"
goose = "0.17"
http = "0.2"
lazy_static = "1"
once_cell = "1"
rand = "0.8"
rand_distr = "0.4"
reqwest = "0.11"
ruma = { version = "0.8", features = ["client-api-c"] }
serde = { version = "1", features = ["derive"] }
serde_json = "1"
thiserror = "1"
tokio = { version = "1", features = ["macros", "rt-multi-thread", "signal", "sync", "time"] }
tracing = "0.1"
weighted_rand = "0.4"
