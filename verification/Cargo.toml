[package]
name = "pdbgen"
version = "0.1.0"
edition = "2021"
publish = false

[dependencies]
anyhow = "=1.0.104"
log = "=0.4.34"
binaryninja = "=0.0.1"
