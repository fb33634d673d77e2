[package]
name = "nimbra_edge"
version = "0.1.0"
edition = "2021"
publish = false

[dependencies]
anyhow = "1"
clap = "4"
reqwest = { version = "=0.12.28", default-features = false, features = ["blocking", "cookies", "json", "rustls-tls"] }
rpassword = "7"
serde = { version = "1", features = ["derive"] }
serde_json = "1"
tabled = "=0.22.0"
