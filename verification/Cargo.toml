[package]
name = "admin_authority"
version = "0.1.0"
edition = "2021"
publish = false

[dependencies]
borsh = "1"
