[package]
name = "nuitrack-pose-estimation"
version = "0.1.0"
edition = "2021"
publish = false

[dependencies]
nalgebra = "*"
nalgebra-glm = "*"
nuitrack-rs = "*"
serde = { version = "1", features = ["derive"] }
