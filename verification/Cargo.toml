[package]
name = "live_server"
version = "0.1.0"
edition = "2021"
publish = false

[dependencies]
actix-web = { version = "4", default-features = false, features = ["macros"] }
chrono = { version = "0.4", default-features = false, features = ["std"] }
colored = "2"
futures = "0.3"
lazy_static = "1"
mime_guess = "2"
qrcode = { version = "0.14", default-features = false }
serde = { version = "1", features = ["derive"] }
tera = { version = "1", default-features = false }
termsize = "0.1"
tokio = { version = "1", features = ["fs", "io-util"] }
unicode-width = "0.1"
walkdir = "2"
