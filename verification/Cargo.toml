[package]
name = "ideanet"
version = "0.1.0"
edition = "2021"
publish = false

[dependencies]
async-trait = "*"
serde = { version = "*", features = ["derive"] }
surrealdb = { version = "=1.3.1", default-features = false, features = ["kv-mem"] }
tokio = { version = "*", features = ["sync"] }
