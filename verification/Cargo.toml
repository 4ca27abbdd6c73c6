[package]
name = "splashsurf_lib"
version = "0.1.0"
edition = "2021"
publish = false

[dependencies]
anyhow = "*"
nalgebra = "*"
rayon = "*"
vtkio = "*"
