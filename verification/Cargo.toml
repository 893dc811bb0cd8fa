[package]
name = "wicked_migration"
version = "0.1.0"
edition = "2021"
publish = false

[dependencies]
json = "0.12"
shlex = "1"
uuid = { version = "1", features = ["v4"] }
anyhow = "1"
thiserror = "1"
tempfile = "3"
rusqlite = "0.32"
clap = { version = "4", features = ["derive"] }
tokio = { version = "1", features = ["macros", "rt-multi-thread", "net", "sync"] }
axum = { version = "0.7", features = ["multipart"] }
tower-http = { version = "0.5", features = ["fs"] }
