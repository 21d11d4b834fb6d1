[package]
name = "prism"
version = "0.1.0"
edition = "2021"
publish = false

[dependencies]
stellar-strkey = "*"
url = "*"
wasmparser = "*"
colored = "*"
tabled = "*"
serde = { version = "*", features = ["derive"] }
serde_json = "*"
clap = { version = "*", features = ["derive"] }
clap_complete = "*"
tokio = { version = "*", features = ["macros", "rt-multi-thread", "time", "net"] }
reqwest = { version = "*", default-features = false, features = ["json"] }
tracing = "*"
tracing-subscriber = { version = "*", features = ["env-filter"] }
anyhow = "*"
indicatif = "*"
