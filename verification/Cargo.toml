[package]
name = "no_extraneous_dependencies"
version = "0.1.0"
edition = "2021"
publish = false

[dependencies]
cow-utils = "*"
fast-glob = "*"
lazy-regex = "*"
nodejs-built-in-modules = "*"
oxc_resolver = "*"
rustc-hash = "*"
serde = { version = "1", features = ["derive"] }
serde_json = "1"
