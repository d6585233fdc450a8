[package]
name = "node_graph"
version = "0.1.0"
edition = "2021"
publish = false

[dependencies]
slotmap = "1"
dyn-clone = "1"
eframe = { version = "0.29", default-features = false, features = ["glow", "default_fonts", "x11"] }
