[package]
name = "archipelago_rs"
version = "0.1.0"
edition = "2021"
publish = false

[dependencies]
futures-util = { version = "*", default-features = false, features = ["sink", "std"] }
serde = { version = "1", features = ["derive"] }
serde_json = "1"
serde_repr = "*"
serde_with = "3"
thiserror = "*"
tokio = { version = "1", features = ["net"] }
tokio-tungstenite = "*"
tungstenite = "*"
