[package]
name = "image_resize"
version = "0.1.0"
edition = "2021"
publish = false

[dependencies]
image = { version = "0.25", default-features = false, features = ["jpeg", "png", "webp", "gif"] }
actix-web = "4"
reqwest = { version = "0.12", default-features = false }
dotenv = "0.15"
env_logger = "0.11"
log = "0.4"
