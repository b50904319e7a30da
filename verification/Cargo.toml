[package]
name = "cavc_boundary"
version = "0.1.0"
edition = "2021"
publish = false

[dependencies]
cavalier_contours = "*"
