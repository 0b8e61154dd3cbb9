[package]
name = "ucom"
version = "0.1.0"
edition = "2021"
publish = false

[dependencies]
anyhow = "1"
chrono = { version = "0.4", features = ["serde"] }
clap = { version = "4", features = ["derive", "env"] }
dirs = "*"
indexmap = "2"
natord = "1"
path-absolutize = "3"
quick-xml = { version = "*", features = ["serialize"] }
serde = { version = "1", features = ["derive"] }
serde_json = "1"
ureq = "3"
uuid = { version = "1", features = ["v4"] }
walkdir = "2"
yansi = "1"
