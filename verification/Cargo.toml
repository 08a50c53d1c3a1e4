[package]
name = "pg_pipeline"
version = "0.1.0"
edition = "2021"
publish = false

[dependencies]
async-trait = "=0.1.92"
bytes = "=1.12.1"
fallible-iterator = "=0.2.0"
futures = "=0.3.34"
linked-hash-map = "=0.5.6"
log = "=0.4.34"
phf_codegen = "=0.11.3"
pin-project-lite = "=0.2.17"
postgres-protocol = "=0.6.12"
