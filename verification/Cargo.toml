[package]
name = "git_version"
version = "0.1.0"
edition = "2021"

[dependencies]
proc-macro2 = "1"
syn = "2"
