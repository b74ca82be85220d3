[package]
name = "fullstack_bulletin"
version = "0.1.0"
edition = "2021"
publish = false

[dependencies]
anyhow = "*"
chrono = "*"
lambda_runtime = "*"
rand = "*"
reqwest = { version = "*", default-features = false, features = ["json", "rustls-tls"] }
scraper = "*"
serde = { version = "*", features = ["derive"] }
serde_json = "*"
tera = "*"
thiserror = "*"
tokio = { version = "*", features = ["macros", "rt"] }

[dev-dependencies]
