[package]
name = "mozlog"
version = "0.1.0"
edition = "2021"
publish = false

[dependencies]
actix-web = "4"
anyhow = "*"
async-trait = "*"
cadence = "*"
futures = "*"
gethostname = "*"
lazy_static = "*"
maxminddb = "*"
reqwest = { version = "*", default-features = false, features = ["blocking"] }
serde = { version = "*", features = ["derive"] }
serde_json = "*"
thiserror = "*"
tracing = "*"
tracing-actix-web = "*"
tracing-bunyan-formatter = "*"
tracing-futures = "*"
tracing-subscriber = "*"
