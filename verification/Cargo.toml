[package]
name = "registry_analysis"
version = "0.1.0"
edition = "2021"
publish = false

[dependencies]
deno_semver = "=0.7.1"
deno_ast = "=0.45.1"
deno_graph = "=0.88.0"
deno_error = "=0.5.7"
deno_media_type = "=0.2.4"
url = "=2.5.8"
futures = "=0.3.34"
tokio = { version = "=1.53.2", features = ["rt", "macros"] }
async-trait = "=0.1.92"
anyhow = "=1.0.104"
serde = "=1.0.210"
serde_json = "=1.0.128"
