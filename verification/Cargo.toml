[package]
name = "lnx_document"
version = "0.1.0"
edition = "2021"
publish = false

[dependencies]
anyhow = "1"
axum = "0.1"
chrono = "0.4"
fern = { version = "0.6", features = ["colored"] }
flate2 = "=1.1.10"
hyper = { version = "0.14", features = ["full"] }
log = "0.4"
num_cpus = "1"
once_cell = "1"
structopt = "0.3"
tantivy = { version = "0.19", default-features = false }
time = { version = "=0.3.55", features = ["formatting", "parsing"] }
tokio = { version = "1", features = ["full"] }
tokio-rustls = "0.22"
tower = "0.4"
tower-http = { version = "0.1", features = ["auth", "set-header"] }
