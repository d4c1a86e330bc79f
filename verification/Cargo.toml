[package]
name = "lunch_bot"
version = "0.1.0"
edition = "2021"
publish = false

[dependencies]
rand = "=0.8.8"
teloxide = { version = "=0.12.2", features = ["macros"] }
sqlx = { version = "=0.7.4", features = ["runtime-tokio", "postgres", "chrono", "json"] }
tokio = { version = "=1.44.2", features = ["macros", "rt-multi-thread"] }
anyhow = "=1.0.104"
log = "=0.4.34"
serde = { version = "=1.0.229", features = ["derive"] }
chrono = "=0.4.45"
dptree = "=0.3.0"
takecell = "=0.1.1"
