[package]
name = "cubespin"
version = "0.1.0"
edition = "2021"
publish = false

[dependencies]
yew = "0.19"
gloo = "0.8"
