[package]
name = "tplink_hs110"
version = "0.1.0"
edition = "2021"
publish = false

[dependencies]
clap = "4"
serde_json = "1"
thiserror = "1"
