[package]
name = "myrica"
version = "0.1.0"
edition = "2021"
publish = false

[dependencies]
anyrender = "=0.14.0"
blitz-dom = "0.2"
blitz-html = "0.2"
blitz-paint = "0.2"
blitz-traits = "0.2"
cookie_store = "=0.22.1"
data-url = "=0.3.2"
encoding_rs = "=0.8.44"
getrandom = { version = "0.2", features = ["custom"] }
keyboard-types = "0.8"
lyon_path = "1"
lyon_tessellation = "1"
mime = "=0.3.17"
parley = { version = "0.12", default-features = false, features = ["std"] }
peniko = "0.6"
psl = "=2.1.246"
reqwest = { version = "=0.13.5", default-features = false, features = ["cookies"] }
skrifa = "*"
tokio = { version = "1", features = ["rt", "sync", "net", "time"] }
url = "=2.5.8"
