[package]
name = "slashery"
version = "0.1.0"
edition = "2021"
publish = false

[dependencies]
serde = { version = "1", features = ["derive"] }
serde_json = "1"
serde_repr = "0.1"
serenity = { version = "0.11", default-features = false }
snafu = "0.7"
