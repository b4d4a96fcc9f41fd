[package]
name = "sprout_test_task"
version = "0.1.0"
edition = "2021"
publish = false

[dependencies]
actix-web = { version = "3", default-features = false }
serde = { version = "1", features = ["derive"] }
serde_json = "1"
