[package]
name = "payjoin-cli"
version = "0.1.0"
edition = "2021"
publish = false

[dependencies]
clap = "4"
config = { version = "0.13", default-features = false, features = ["toml"] }
log = "0.4"
payjoin = { version = "*", default-features = false, features = ["v2"] }
url = "2"
