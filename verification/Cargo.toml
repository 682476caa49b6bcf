[package]
name = "better_auth_toasty"
version = "0.1.0"
edition = "2021"
publish = false

[dependencies]
async-trait = "0.1"
better-auth-core = "0.10"
chrono = "0.4"
serde_json = "1"
toasty = "0.7"
uuid = { version = "1", features = ["v4"] }
