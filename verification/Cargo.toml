[package]
name = "hutopia"
version = "0.1.0"
edition = "2021"
publish = false

[dependencies]
ring = "0.17"
rand = "0.8"
serde = { version = "1", features = ["derive"] }
serde_json = "1"
mime_guess = "2"
reqwest = { version = "0.12", default-features = false, features = ["json", "blocking"] }
uuid = { version = "1", features = ["v4"] }
actix = "0.13"
actix-web = "4"
actix-web-actors = "4"
actix-rt = "2"
actix-session = { version = "0.10", features = ["cookie-session"] }
rust-embed = "8"
diesel = { version = "2", features = ["postgres", "r2d2", "chrono"] }
diesel_migrations = "2"
chrono = "0.4"
env_logger = "0.11"
log = "0.4"
lazy_static = "1"
libloading = "0.8"
notify = "6"
futures = "0.3"
protocol = "3"
protocol-derive = "3"
toml = "0.8"
wasm-bindgen = "0.2"
web-sys = { version = "0.3", features = ["Window", "Document", "Element", "HtmlElement", "HtmlInputElement", "Node", "Text", "Event", "EventTarget", "ErrorEvent", "MessageEvent", "WebSocket", "BinaryType"] }
custom-elements = "0.2"
