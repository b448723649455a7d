[package]
name = "screeps-game-api"
version = "0.1.0"
edition = "2021"
publish = false

[dependencies]
serde = { version = "1", features = ["derive"] }
serde_json = "1"
toml = "0.5"
stdweb = "0.4"
wasm-bindgen = "0.2"
js-sys = "0.3"
