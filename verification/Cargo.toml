[package]
name = "pluto_rs"
version = "0.1.0"
edition = "2021"
publish = false

[dependencies]
anyhow = "1"
async-trait = "0.1"
bytes = "1"
chrono = { version = "0.4", features = ["serde"] }
dotenv = "*"
http = "0.2"
log = "0.4"
pretty_env_logger = "*"
reqwest = { version = "*", default-features = false, features = ["json", "rustls-tls"] }
rust_decimal = "1"
rusty-money = "*"
rweb = { version = "*", default-features = false }
serde = { version = "1", features = ["derive"] }
serde_json = { version = "1", features = ["arbitrary_precision"] }
sqlx = { version = "*", default-features = false, features = ["postgres", "runtime-tokio", "bigdecimal", "chrono", "uuid"] }
tokio = { version = "1", features = ["macros", "rt-multi-thread"] }
uuid = { version = "1", features = ["serde"] }
