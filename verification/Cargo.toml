[package]
name = "chuckle"
version = "0.1.0"
edition = "2021"
publish = false

[dependencies]
hex = "0.4"
uuid = { version = "1", features = ["v4"] }
rand = "0.8"
serde_json = "1"
ms = "*"
serde = { version = "1", features = ["derive"] }
anyhow = "1"
once_cell = "1"
envy = "0.4"
tokio = { version = "1", features = ["full"] }
tracing = "0.1"
tracing-subscriber = { version = "0.3", features = ["env-filter"] }
twilight-model = "0.15"
twilight-http = "0.15"
twilight-gateway = "0.15"
twilight-cache-inmemory = "0.15"
twilight-util = { version = "0.15", features = ["builder"] }
zephyrus = "*"
vesper = "*"
sqlx = { version = "0.7", features = ["postgres", "runtime-tokio", "uuid", "time", "json"] }
axum = "0.6"
tower = "0.4"
tower-http = { version = "0.4", features = ["trace"] }
reqwest = { version = "0.11", default-features = false, features = ["json", "rustls-tls"] }
ring = "0.17"
clokwerk = "0.4"
indoc = "2"
itertools = "0.11"
time = "0.3"
