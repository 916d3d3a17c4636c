[package]
name = "async_bindgen"
version = "0.1.0"
edition = "2021"
publish = false

[dependencies]
regex = "=1.13.1"
handlebars = "=6.4.4"
serde_json = "=1.0.154"
syn = { version = "=2.0.119", features = ["full", "extra-traits", "parsing", "printing"] }
quote = "=1.0.47"
proc-macro2 = "=1.0.107"
heck = "=0.5.0"
once_cell = "1"
tokio = { version = "1", features = ["rt-multi-thread"] }
async-std = "1"
futures-channel = "0.3"
structopt = "0.3"
anyhow = "1"
thiserror = "=2.0.21"
