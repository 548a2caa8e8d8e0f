[package]
name = "svg2gcode"
version = "0.1.0"
edition = "2021"
publish = false

[dependencies]
lyon_geom = "1"
serde = { version = "1", features = ["derive"] }
