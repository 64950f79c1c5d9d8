[package]
name = "repac_save"
version = "0.1.0"
edition = "2021"
publish = false
