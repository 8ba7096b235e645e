[package]
name = "grabsim"
version = "0.1.0"
edition = "2021"
publish = false

[dependencies]
nphysics3d = "*"
ncollide3d = "*"
