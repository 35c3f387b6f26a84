[package]
name = "web_session"
version = "0.1.0"
edition = "2021"
publish = false

[dependencies]
capnp = "*"
capnp-rpc = "*"
sandstorm = "*"
futures = "*"
tokio = { version = "*", features = ["net", "rt", "macros"] }
tokio-util = { version = "*", features = ["compat"] }
