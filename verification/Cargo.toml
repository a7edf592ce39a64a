[package]
name = "scholars"
version = "0.1.0"
edition = "2021"
publish = false

[dependencies]
async-trait = "0.1"
bytes = "1"
form_urlencoded = "1"
futures-core = "0.3"
http = "0.2"
log = "0.4"
pin-project = "1"
reqwest = { version = "0.11", default-features = false, features = ["blocking"] }
serde = { version = "1", features = ["derive"] }
serde_json = "1"
serde_urlencoded = "0.7"
serde_with = "2"
static_assertions = "1"
thiserror = "1"
url = "2"
