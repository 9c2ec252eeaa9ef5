[package]
name = "raytracer"
version = "0.1.0"
edition = "2021"
publish = false

[dependencies]
clap = { version = "4", features = ["derive"] }
fastrand = "1"
glium = "0.32"
image = { version = "0.24", default-features = false, features = ["png"] }
nalgebra = { version = "0.32", features = ["serde-serialize"] }
rayon = "1"
serde = { version = "1", features = ["derive"] }
serde_json = "1"
