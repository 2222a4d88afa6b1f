[package]
name = "rs_utp"
version = "0.1.0"
edition = "2021"
publish = false

[dependencies]
bytes = "1"
rand = "0.8"
tokio = { version = "1", features = ["net", "sync", "rt"] }
lazy_static = "1"
thiserror = "1"
