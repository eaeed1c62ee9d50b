[package]
name = "mpvbot"
version = "0.1.0"
edition = "2021"
publish = false

[dependencies]
hashbrown = "=0.17.1"
rand = "=0.10.3"
serde_json = "=1.0.151"
anyhow = "=1.0.104"
dotenv = "=0.15.0"
smol = "=2.0.2"
twitchchat = { version = "=0.14.8", features = ["smol", "async"] }
