[package]
name = "updater_bundle"
version = "0.1.0"
edition = "2021"
publish = false

[dependencies]
anyhow = "1.0"
libflate = "1.4"
log = "0.4"
tar = "0.4"
zip = { version = "0.6", default-features = false }
