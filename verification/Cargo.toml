[package]
name = "adesh_aot"
version = "0.1.0"
edition = "2021"
publish = false

[dependencies]
target-lexicon = "=0.12.16"
cranelift-codegen = "=0.112.3"
cranelift-module = "=0.112.3"
cranelift-object = "=0.112.3"
cranelift-frontend = "=0.112.3"
serde = { version = "=1.0.229", features = ["derive"] }
serde_json = "=1.0.154"
