[package]
name = "recipe_final_exercise"
version = "0.1.0"
edition = "2021"
publish = false

[dependencies]
actix-files = "=0.6.10"
actix-web = "=4.18.1"
base64 = "=0.21.7"
bcrypt = "=0.15.1"
bson = "=2.15.0"
console_error_panic_hook = "=0.1.7"
futures = "=0.3.34"
leptos = { version = "=0.5.7", features = ["ssr"] }
leptos_actix = "=0.5.7"
leptos_meta = { version = "=0.5.7", features = ["ssr"] }
leptos_router = { version = "=0.5.7", features = ["ssr"] }
mongodb = "=2.8.2"
rand = "=0.8.8"
serde = { version = "=1.0.229", features = ["derive"] }
tracing = "=0.1.44"
wasm-bindgen = "=0.2.129"
web-sys = { version = "=0.3.106", features = ["Document", "HtmlDocument", "Window"] }
