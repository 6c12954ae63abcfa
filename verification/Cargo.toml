[package]
name = "readelf_rs"
version = "1.0.0"
edition = "2021"
publish = false

[dependencies]
anyhow = "1"
clap = "4"
memmap2 = "0.9"
