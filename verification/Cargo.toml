[package]
name = "sw_reports"
version = "0.1.0"
edition = "2021"
publish = false

[dependencies]
csv-async = "=1.3.1"
directories = "=6.0.0"
futures = "=0.3.34"
iced = { version = "=0.14.0", default-features = false, features = ["canvas", "tiny-skia", "tokio", "x11"] }
lucide-icons = { version = "=1.61.0", features = ["iced"] }
rfd = { version = "=0.17.2", default-features = false, features = ["xdg-portal"] }
serde = { version = "=1.0.229", features = ["derive"] }
sqlx = { version = "=0.9.0", default-features = false, features = ["sqlite", "runtime-tokio"] }
tokio = { version = "=1.54.1", features = ["fs", "rt"] }
tokio-util = { version = "=0.7.20", features = ["compat"] }
