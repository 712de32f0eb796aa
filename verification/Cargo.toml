[package]
name = "docker_bootstrapper"
version = "0.1.0"
edition = "2021"
publish = false

[dependencies]
tar = "*"
flate2 = "*"
itertools = "*"
bollard = "*"
ctrlc = "*"
futures = "*"
rand = "*"
color-eyre = "*"
