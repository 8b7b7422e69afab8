[package]
name = "repo_sync"
version = "0.1.0"
edition = "2021"
publish = false

[dependencies]
chrono = "0.4"
toml = "*"
serde = { version = "1", features = ["derive"] }
reqwest = { version = "*", default-features = false, features = ["json", "rustls-tls"] }
git2 = { version = "*", default-features = false }
tokio = { version = "1", features = ["macros", "rt-multi-thread", "time"] }
log = "0.4"
simplelog = "*"
