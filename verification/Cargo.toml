[package]
name = "pkce_flow"
version = "0.1.0"
edition = "2021"
publish = false

[dependencies]
oauth2 = { version = "4", default-features = false }
reqwest = { version = "0.12", default-features = false, features = ["blocking", "json"] }
serde_json = "1"
