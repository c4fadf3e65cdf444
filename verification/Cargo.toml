[package]
name = "questdb_cli"
version = "0.1.0"
edition = "2021"
publish = false

[dependencies]
anyhow = "=1.0.104"
chrono = "=0.4.45"
clap = { version = "=4.6.7", features = ["derive"] }
csv = "=1.4.0"
futures = "=0.3.34"
prettytable-rs = { version = "=0.10.0", default-features = false }
reqwest = { version = "=0.12.28", default-features = false, features = ["rustls-tls"] }
rustyline = "=9.1.2"
serde_json = "=1.0.154"
shellexpand = "=3.1.2"
sqlparser = "=0.63.0"
tokio = { version = "=1.54.1", features = ["full"] }
tokio-postgres = { version = "=0.7.18", features = ["with-chrono-0_4"] }
