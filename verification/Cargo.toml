[package]
name = "aqi_query"
version = "0.1.0"
edition = "2021"
publish = false

[dependencies]
chrono = "0.4"
serde = { version = "1", features = ["derive"] }
tokio = { version = "1", features = ["macros", "rt-multi-thread", "time"] }
reqwest = { version = "0.12", default-features = false, features = ["json"] }
warp = { version = "0.3", default-features = false }
prometheus = "0.13"
structopt = "0.3"
