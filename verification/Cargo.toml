[package]
name = "rtree_cache"
version = "0.1.0"
edition = "2021"
publish = false

[dependencies]
rstar = "0.9"
geo = { version = "0.20", features = ["use-serde"] }
serde = { version = "1", features = ["derive"] }
once_cell = "1"
wasm-bindgen = "0.2"
console_error_panic_hook = "0.1"
wee_alloc = "0.4"
