[package]
name = "vamos"
version = "0.1.0"
edition = "2021"
publish = false

[dependencies]
leptos = { version = "*", features = ["csr"] }
leptos_router = { version = "*" }
serde = { version = "*", features = ["derive"] }
serde_json = { version = "*" }
wasm-bindgen = { version = "*" }
