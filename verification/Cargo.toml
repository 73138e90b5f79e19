[package]
name = "bbsmon"
version = "0.1.0"
edition = "2021"
publish = false

[dependencies]
chrono = { version = "=0.4.45", default-features = false, features = ["clock", "std"] }
lettre = { version = "=0.11.23", default-features = false, features = ["builder", "smtp-transport", "native-tls"] }
reqwest = { version = "=0.12.28", default-features = false, features = ["blocking", "default-tls"] }
rss = { version = "=2.1.2", default-features = false }
serde_json = "=1.0.154"
tera = "=1.20.1"
