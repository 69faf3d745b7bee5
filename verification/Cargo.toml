[package]
name = "rsmgp-sys"
version = "0.1.0"
edition = "2021"
publish = false

[dependencies]
c_str_macro = "1"
chrono = { version = "0.4", default-features = false }
snafu = "0.6"
