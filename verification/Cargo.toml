[package]
name = "keeper"
version = "0.1.0"
edition = "2021"
publish = false

[dependencies]
anyhow = "1"
clap = { version = "4", features = ["derive"] }
hyper = { version = "0.14", features = ["full"] }
log = "0.4"
routerify = "3"
serde = { version = "1", features = ["derive"] }
serde_json = "1"
shellexpand = "3"
sqlx = { version = "0.7", default-features = false, features = ["runtime-tokio-rustls", "postgres"] }
tokio = { version = "1", features = ["full"] }
