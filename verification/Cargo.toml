[package]
name = "bleur"
version = "0.1.0"
edition = "2021"
publish = false

[dependencies]
url = "*"
clap = { version = "*", features = ["derive"] }
git2 = { version = "*", default-features = false }
inquire = "*"
tempfile = "*"
dircpy = "*"
serde = { version = "*", features = ["derive"] }
serde_json = "*"
zip = { version = "*", default-features = false, features = ["deflate"] }
reqwest = { version = "*", default-features = false, features = ["blocking", "rustls-tls"] }
owo-colors = "*"
thiserror = "*"
