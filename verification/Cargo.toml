[package]
name = "ra_lsp_server"
version = "0.1.0"
edition = "2021"
publish = false

[dependencies]
crossbeam-channel = "0.3"
log = "0.4"
lsp-server = "0.2"
lsp-types = { version = "0.61", features = ["proposed"] }
ra_vfs = "0.4"
relative-path = "1"
rustc-hash = "1"
serde = { version = "1", features = ["derive"] }
serde_json = { version = "1", features = ["float_roundtrip"] }
threadpool = "1"
