[package]
name = "actix_xsrf"
version = "0.1.0"
edition = "2021"
publish = false

[dependencies]
actix-web = { version = "3", default-features = false }
futures-util = "0.3"
xsrf = "*"
