[package]
name = "manuscript"
version = "0.1.0"
edition = "2021"
publish = false

[dependencies]
bytes = { version = "1", features = ["serde"] }
serde = { version = "1", features = ["derive"] }
bincode = "1"
sha256 = "1"
ulid = "1"
regex = "1"
lazy_static = "1"
once_cell = "1"
gettext-rs = { version = "0.7", features = ["gettext-system"] }
