[package]
name = "theremotion"
version = "0.1.0"
edition = "2021"
publish = false

[dependencies]
crossbeam-channel = "*"
staff = "*"
leaprs = "*"
eframe = { version = "*", default-features = false }
egui = { version = "*", default-features = false }
nalgebra = "*"
