[package]
name = "bartender"
version = "0.1.0"
edition = "2021"
publish = false

[dependencies]
axum = "=0.5.17"
chrono = { version = "0.4", default-features = false, features = ["clock", "serde"] }
dotenvy = "0.15"
futures = "0.3"
itertools = "=0.10.5"
ldap3 = { version = "=0.11.5", default-features = false }
log = "0.4"
rand = "=0.8.8"
reqwest = { version = "=0.11.27", default-features = false, features = ["json"] }
serde = { version = "1", features = ["derive"] }
serde_json = "1"
sqlx = { version = "=0.6.3", default-features = false, features = ["runtime-tokio-rustls", "postgres", "chrono", "macros"] }
tokio = { version = "1", features = ["macros", "rt-multi-thread"] }
tower = "=0.4.13"
tower-http = { version = "=0.3.5", features = ["cors", "trace"] }
tracing-subscriber = "0.3"
trust-dns-resolver = "=0.22.0"
