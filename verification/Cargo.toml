[package]
name = "pandemist_vehicle_elements"
version = "0.1.0"
edition = "2021"
publish = false

[dependencies]
lotus-script = "*"
lotus-extra = "*"
rand = "*"
serde = { version = "*", features = ["derive"] }
