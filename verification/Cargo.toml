[package]
name = "sql_lint"
version = "0.1.0"
edition = "2021"
publish = false

[dependencies]
nom = "7"
pad = "0.1"
clap = { version = "3", features = ["derive"] }
wasm-bindgen = "0.2"
