[package]
name = "mrb_build"
version = "0.1.0"
edition = "2021"
publish = false

[dependencies]
cc = "1"
reqwest = { version = "0.11", default-features = false, features = ["blocking", "rustls-tls"] }
flate2 = "1"
tar = "0.4"
bindgen = "0.69"
