[package]
name = "bank_query"
version = "0.1.0"
edition = "2021"
publish = false

[dependencies]
calamine = "*"
rust_xlsxwriter = "*"
clap = { version = "4", features = ["derive"] }
serde = { version = "1", features = ["derive"] }
serde_json = "1"
toml = "*"
r2d2 = "0.8"
r2d2_sqlite = "*"
rusqlite = "*"
warp = "0.3"
tokio = { version = "1", features = ["macros", "rt-multi-thread"] }
futures-util = "0.3"
bytes = "1"
