[package]
name = "nx_fs"
version = "0.1.0"
edition = "2021"
publish = false
