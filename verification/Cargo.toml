[package]
name = "chat_app"
version = "0.1.0"
edition = "2021"
publish = false

[dependencies]
jsonwebtoken = "9"
serde_json = { version = "1", features = ["raw_value"] }
serde = { version = "1", features = ["derive"] }
rand = "0.8"
actix = "0.13"
actix-web = "4"
actix-web-actors = "4"
actix-web-httpauth = "0.8"
actix-cors = "0.7"
sqlx = { version = "0.8", default-features = false, features = ["runtime-tokio", "sqlite"] }
clap = "4"
futures = "0.3"
log = "0.4"
yew = { version = "0.21", features = ["csr"] }
yew-router = "0.18"
gloo = "0.11"
gloo-timers = "0.3"
reqwasm = "0.5"
wasm-bindgen = "0.2"
wasm-bindgen-futures = "0.4"
web-sys = { version = "0.3", features = ["HtmlInputElement", "Window", "Document", "Element"] }
wasm-logger = "0.2"
futures-util = { version = "0.3", features = ["sink"] }
