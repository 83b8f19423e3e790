[package]
name = "genshin_map_functions"
version = "0.1.0"
edition = "2021"
publish = false

[dependencies]
anyhow = "1"
chrono = "0.4"
serde_json = "1"
sea-orm = { version = "1", default-features = false, features = ["macros", "with-chrono", "with-json"] }
