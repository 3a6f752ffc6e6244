[package]
name = "trace_relay"
version = "0.1.0"
edition = "2021"
publish = false

[dependencies]
rand = "0.8"
actix-web = "4"
awc = "3"
tokio = { version = "1", features = ["macros", "rt-multi-thread"] }
