[package]
name = "open_auth2"
version = "0.1.0"
edition = "2021"
publish = false

[dependencies]
base64 = "*"
http = "*"
rand = "*"
serde = { version = "*", features = ["derive"] }
serde_html_form = "*"
serde_json = "*"
sha2 = "*"
