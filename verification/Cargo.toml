[package]
name = "ann_registry"
version = "0.1.0"
edition = "2021"
publish = false

[dependencies]
hora = { version = "0.1", default-features = false }
actix-web = { version = "4", default-features = false, features = ["macros"] }
futures-util = "0.3"
serde = { version = "1", features = ["derive"] }
serde_json = "1"
