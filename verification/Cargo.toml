[package]
name = "joblog"
version = "0.1.0"
edition = "2021"
publish = false

[dependencies]
anyhow = "1"
atty = "0.2"
gitlab = "*"
open = "*"
serde = { version = "1", features = ["derive"] }
yew-ansi = { version = "*", default-features = false }
