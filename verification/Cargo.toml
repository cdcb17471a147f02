[package]
name = "flakysaas"
version = "0.1.0"
edition = "2021"
publish = false

[dependencies]
rand = "*"
serde = { version = "*", features = ["derive"] }
serde_json = "*"
log = "*"
simple-logging = "*"
reqwest = { version = "*", default-features = false, features = ["json"] }
actix-web = { version = "*", default-features = false }
