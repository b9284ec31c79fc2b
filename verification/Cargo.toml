[package]
name = "kyyn_templates"
version = "0.1.0"
edition = "2021"
publish = false

[dependencies]
chrono = { version = "=0.4.45", features = ["serde"] }
serde = { version = "=1.0.229", features = ["derive"] }
schemars = { version = "=1.2.3", features = ["chrono04"] }
wit-bindgen = "=0.63.0"
kyyn-core = "=0.1.23"
ron = "=0.12.3"
