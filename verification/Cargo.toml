[package]
name = "asset_resolver"
version = "0.1.0"
edition = "2021"
publish = false

[dependencies]
zip = "=9.0.5"
