[package]
name = "raytracer"
version = "0.1.0"
edition = "2021"
publish = false

[dependencies]
rand = "0.8"
image = "0.24"
threadpool = "1.8"
env_logger = "0.10"
log = "0.4"
once_cell = "1"
