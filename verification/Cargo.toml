[package]
name = "haruna_bot"
version = "0.1.0"
edition = "2021"
publish = false

[dependencies]
ab_glyph = "=0.2.32"
anyhow = "=1.0.104"
async-trait = "=0.1.92"
base64 = "=0.23.1"
chrono = "=0.4.45"
dashmap = "=6.2.1"
futures-util = "=0.3.34"
gif = "=0.14.2"
image = { version = "=0.25.10", default-features = false, features = ["gif", "png", "jpeg"] }
imageproc = { version = "=0.27.0", default-features = false, features = ["text"] }
rand = "=0.10.3"
rayon = "=1.12.0"
reqwest = { version = "=0.13.5", default-features = false, features = ["json"] }
serde = { version = "=1.0.229", features = ["derive"] }
serde_json = "=1.0.154"
serde_yaml = "=0.9.34"
sqlx = { version = "=0.9.0", default-features = false, features = ["runtime-tokio", "postgres"] }
tokio = { version = "=1.54.1", features = ["full"] }
tokio-tungstenite = "=0.30.0"
tungstenite = "=0.30.0"
tracing = "=0.1.44"
tracing-subscriber = "=0.3.23"
