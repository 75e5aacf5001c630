[package]
name = "rimusic"
version = "0.1.0"
edition = "2021"
publish = false

[dependencies]
confy = "*"
dirs = "*"
iced = { version = "0.14", default-features = false, features = ["tiny-skia", "tokio"] }
iced_aw = { version = "0.14", default-features = false, features = ["menu"] }
lofty = "*"
rand = "*"
rfd = "*"
rodio = "*"
serde = { version = "*", features = ["derive"] }
