[package]
name = "scene_pipeline"
version = "0.1.0"
edition = "2021"
publish = false

[dependencies]
pathfinder_geometry = "*"
clap = "2"
rayon = "*"
