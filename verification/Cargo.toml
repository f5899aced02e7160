[package]
name = "gatehouse"
version = "0.1.0"
edition = "2021"
publish = false

[dependencies]
mime = "*"
rand = "*"
anyhow = "*"
axum = "*"
bb8 = "*"
bb8-postgres = "*"
ciborium = "*"
http = "*"
hyper = "*"
metrics = "*"
metrics-exporter-prometheus = "*"
serde = { version = "*", features = ["derive"] }
thiserror = "*"
tokio = { version = "*", features = ["macros", "rt-multi-thread", "signal", "sync", "time", "net"] }
tokio-postgres = "*"
toml = "*"
tower = { version = "*", features = ["limit", "load-shed", "timeout"] }
tower-http = { version = "*", features = ["compression-gzip", "trace", "validate-request"] }
tracing = "*"
tracing-subscriber = { version = "*", features = ["env-filter"] }
utoipa = "*"
