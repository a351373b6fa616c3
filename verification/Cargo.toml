[package]
name = "normally_closed"
version = "0.1.0"
edition = "2021"
publish = false

[dependencies]
tokio = { version = "=1.53.2", features = ["macros", "rt-multi-thread", "time", "sync"] }
warp = { version = "=0.4.3", features = ["server"] }
reqwest = { version = "=0.13.5", default-features = false, features = ["json"] }
serde = { version = "=1.0.229", features = ["derive"] }
toml = "=1.1.7"
futures = "=0.3.34"
itertools = "=0.15.0"
tracing = "=0.1.44"
tracing-subscriber = "=0.3.23"
structopt = "=0.3.26"
