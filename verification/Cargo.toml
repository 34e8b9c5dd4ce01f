[package]
name = "mittorch"
version = "0.1.0"
edition = "2021"
publish = false

[dependencies]
serde_json = "=1.0.154"
serde = { version = "=1.0.229", features = ["derive"] }
git2 = { version = "=0.21.0", features = ["https"] }
reqwest = { version = "=0.13.5", features = ["blocking", "json"] }
ctrlc = "=3.5.2"
colored = "=3.1.1"
