[package]
name = "hotel_client"
version = "0.1.0"
edition = "2021"
publish = false

[dependencies]
regex = "1"
jsonwebtoken = "9"
uuid = { version = "1", features = ["serde"] }
serde = { version = "1", features = ["derive"] }
serde_json = "1"
reqwest = { version = "0.12", default-features = false, features = ["json"] }
tokio = { version = "1", features = ["time"] }
iced = { version = "0.13", default-features = false, features = ["tokio", "advanced", "tiny-skia"] }
iced_aw = { version = "0.11", default-features = false, features = ["date_picker"] }
