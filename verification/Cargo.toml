[package]
name = "serde_valid"
version = "0.1.0"
edition = "2021"
publish = false

[dependencies]
aide = { version = "0.12", features = ["axum"] }
async-trait = "=0.1.92"
axum = "=0.6.20"
fluent = "=0.16.1"
http-body = "=0.4.6"
indexmap = { version = "=1.9.3", features = ["serde"] }
once_cell = "=1.21.4"
proc-macro-error = "=1.0.4"
proc-macro2 = "=1.0.107"
quote = "=1.0.47"
ref-cast = "=1.0.27"
regex = "=1.13.1"
schemars = "0.8"
serde = { version = "=1.0.229", features = ["derive"] }
serde_json = "=1.0.154"
strsim = "=0.10.0"
syn = { version = "=1.0.109", features = ["full", "extra-traits"] }
thiserror = "=1.0.69"
