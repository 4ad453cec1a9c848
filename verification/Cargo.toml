[package]
name = "zeroclaw"
version = "0.1.0"
edition = "2021"
publish = false

[dependencies]
anyhow = "*"
async-trait = "*"
directories = "*"
lettre = { version = "*", default-features = false, features = ["smtp-transport", "builder"] }
meval = "*"
reqwest = { version = "*", default-features = false, features = ["json"] }
serde_json = "*"
tokio = { version = "*", default-features = false, features = ["rt-multi-thread", "macros", "time", "sync"] }
tracing = "*"
uuid = { version = "*", features = ["v4"] }
