[package]
name = "cdrs_orm"
version = "0.1.0"
edition = "2021"
publish = false

[dependencies]
regex = "1"
syn = { version = "1", features = ["full", "extra-traits"] }
quote = "1"
proc-macro2 = "1"
proc_macro2_helper = "*"
cdrs = "2"
cdrs_helpers_derive = "*"
cdrs-tokio = "*"
uuid = "0.8"
log = "0.4"
env_logger = "*"
cargo_metadata = "*"
serde = { version = "1", features = ["derive"] }
serde_json = "1"
