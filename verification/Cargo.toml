[package]
name = "file_reader"
version = "0.1.0"
edition = "2021"
publish = false

[dependencies]
chrono = "0.4"
clap = "4"
grep = "0.3"
multipart = { version = "0.18", default-features = false, features = ["server"] }
reqwest = { version = "0.11", default-features = false, features = ["blocking"] }
rocket = { version = "0.5", features = ["secrets"] }
serde = "1"
serde_derive = "1"
serde_json = "1"
v_htmlescape = "0.15"
