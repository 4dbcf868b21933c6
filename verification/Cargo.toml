[package]
name = "thermometer"
version = "0.1.0"
edition = "2021"
publish = false

[dependencies]
axum = { version = "*", features = ["multipart"] }
tokio = { version = "*", features = ["full"] }
tower = "*"
tower-http = { version = "*", features = ["limit", "fs"] }
serde = { version = "*", features = ["derive"] }
csv = "*"
chrono = "*"
uuid = { version = "*", features = ["v4"] }
async-trait = "*"
resvg = "*"
tiny-skia = "*"
