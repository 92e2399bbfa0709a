[package]
name = "megalith_lsps2"
version = "0.1.0"
edition = "2021"
publish = false

[dependencies]
ldk-node = "0.6"
ctrlc = "3"
dotenvy = "0.15"
