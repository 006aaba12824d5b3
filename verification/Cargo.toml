[package]
name = "masq"
version = "0.1.0"
edition = "2021"
publish = false

[dependencies]
clap = { version = "=2.34.0", default-features = false, features = ["suggestions", "vec_map"] }
rustyline = "=8.2.0"
log = "=0.4.35"
actix = "=0.13.5"
