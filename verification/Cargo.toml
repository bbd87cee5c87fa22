[package]
name = "solana_vanity"
version = "0.1.0"
edition = "2021"
publish = false

[dependencies]
solana-sdk = "*"
bs58 = "*"
dashmap = "*"
uuid = { version = "*", features = ["v4"] }
rayon = "*"
num_cpus = "*"
tokio = { version = "1", features = ["rt-multi-thread", "macros", "time", "sync"] }
actix-web = { version = "4", default-features = false, features = ["macros"] }
actix-cors = "*"
chrono = { version = "*", default-features = false, features = ["clock"] }
serde = { version = "1", features = ["derive"] }
serde_json = "1"
reqwest = { version = "*", default-features = false, features = ["json"] }
colored = "*"
cursive = "*"
log = "*"
