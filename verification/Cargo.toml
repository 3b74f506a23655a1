[package]
name = "nuget"
version = "0.1.0"
edition = "2021"
publish = false

[dependencies]
zip = { version = "*", default-features = false, features = ["deflate"] }
anyhow = "*"
cargo_toml = "*"
futures = "*"
reqwest = { version = "*", default-features = false }
structopt = "*"
tokio = { version = "*", features = ["rt-multi-thread"] }
