[package]
name = "first_person_hopper"
version = "0.1.0"
edition = "2021"
publish = false

[dependencies]
alea = "0.2"
benimator = "4"
image = { version = "0.24", default-features = false, features = ["png"] }
rand = "0.8"
winit = { version = "0.28", default-features = false, features = ["x11"] }
