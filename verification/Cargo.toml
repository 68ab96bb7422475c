[package]
name = "raudio"
version = "0.1.0"
edition = "2021"
publish = false

[dependencies]
gtk4 = { version = "0.10", features = ["v4_12"] }
libadwaita = { version = "0.8", features = ["v1_4"] }
gstreamer = "0.24"
lofty = "=0.25.5"
rusqlite = { version = "=0.41.1", features = ["bundled"] }
