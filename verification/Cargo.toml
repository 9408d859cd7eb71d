[package]
name = "rsh"
version = "0.1.0"
edition = "2021"
publish = false

[dependencies]
base64 = "*"
shell-escape = "*"
getopts = "*"
rpassword = "*"
serde = { version = "1", features = ["derive"] }
serde_json = "1"
url = "2"
users = "*"
termion = "*"
nix = { version = "*", features = ["signal"] }
reqwest = { version = "*", default-features = false, features = ["blocking", "json", "rustls-tls"] }
tungstenite = "*"
