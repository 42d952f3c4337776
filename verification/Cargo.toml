[package]
name = "turf_core"
version = "0.1.0"
edition = "2021"
publish = false

[dependencies]
grass = "0.13"
lightningcss = "1.0.0-alpha.1"
convert_case = "0.6"
dunce = "1"
serde = { version = "1", features = ["derive"] }
toml = "0.8"
proc-macro2 = "1"
quote = "1"
thiserror = "1"
