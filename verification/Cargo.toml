[package]
name = "movie_chat"
version = "0.1.0"
edition = "2021"
publish = false

[dependencies]
bcrypt = "*"
serde = { version = "*", features = ["derive"] }
serde_json = "*"
tide = "*"
async-std = { version = "*", features = ["attributes"] }
