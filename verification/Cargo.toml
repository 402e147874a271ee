[package]
name = "autoendpoint"
version = "0.1.0"
edition = "2021"
publish = false

[dependencies]
url = "2"
uuid = "1"
actix-web = { version = "4", default-features = false }
reqwest = { version = "0.12", default-features = false, features = ["json"] }
cadence = "1"
async-trait = "0.1"
thiserror = "1"
serde = { version = "1", features = ["derive"] }
serde_json = "1"

[dev-dependencies]
regex = "1"
