[package]
name = "handlebars_switch"
version = "0.4.0"
edition = "2021"
publish = false

[dependencies]
handlebars = { version = "3.5", default-features = false }
serde_json = "1"
