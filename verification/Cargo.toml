[package]
name = "tournament_stats"
version = "0.1.0"
edition = "2021"
publish = false

[dependencies]
itertools = "*"
rust_xlsxwriter = "*"
uuid = { version = "1", features = ["serde"] }
serde = { version = "1", features = ["derive"] }
strum = { version = "0.26", features = ["derive"] }
thiserror = "1"
tokio = { version = "1", features = ["sync"] }
reqwest = { version = "0.12", default-features = false, features = ["json", "rustls-tls"] }
graphql_client = "0.14"
