[package]
name = "hello_actix"
version = "0.1.0"
edition = "2021"
publish = false

[dependencies]
actix-web = "4"
