[package]
name = "metrics_gateway"
version = "0.1.0"
edition = "2021"
publish = false

[dependencies]
actix-web = "4"
anyhow = "1"
clap = { version = "4", features = ["env"] }
dotenv = "0.15"
http = "1"
prost = "*"
tonic = { version = "*", features = ["gzip"] }
tonic-prost = "*"
tracing = "0.1"
tracing-subscriber = { version = "0.3", features = ["env-filter", "json"] }
