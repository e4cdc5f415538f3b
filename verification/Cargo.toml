[package]
name = "docleaf"
version = "0.1.0"
edition = "2021"
publish = false

[dependencies]
quick-xml = "0.30"
html-escape = "0.2"
itertools = "0.11"
heck = "0.4"
anyhow = "1"
thiserror = "1"
tracing = "0.1"
tracing-subscriber = { version = "0.3", features = ["env-filter"] }
pyo3 = "0.19"
roxmltree = "0.18"
quote = "1"
proc-macro2 = "1"
strum = { version = "0.25", features = ["derive"] }
vec1 = "1"
log = "0.4"
env_logger = "0.10"
