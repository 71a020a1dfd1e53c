[package]
name = "tsync"
version = "0.1.0"
edition = "2021"
publish = false

[dependencies]
convert_case = "*"
syn = { version = "2", features = ["full"] }
proc-macro2 = "1"
quote = "1"
walkdir = "2"
clap = { version = "4", features = ["derive"] }
