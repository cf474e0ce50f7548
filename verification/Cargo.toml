[package]
name = "http_request_derive"
version = "0.1.0"
edition = "2021"
publish = false

[dependencies]
async-trait = "0.1"
bytes = "1"
darling = "0.20"
har = "0.8"
http = "1"
jiff = "0.2"
log = "0.4"
proc-macro2 = "1"
quote = "1"
reqwest = { version = "0.12", default-features = false }
serde = { version = "1", features = ["derive"] }
serde_json = "1"
serde_url_params = "0.2"
syn = { version = "2", features = ["full"] }
tokio = { version = "1", features = ["sync"] }
url = "2"
