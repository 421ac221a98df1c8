[package]
name = "robot_rover"
version = "0.1.0"
edition = "2021"
publish = false

[dependencies]
prost = "=0.14.4"
phoxal = { version = "=0.69.0", default-features = false, features = ["scenario"] }
