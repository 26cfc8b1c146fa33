[package]
name = "bmbp_curd"
version = "0.1.0"
edition = "2021"
publish = false

[dependencies]
bmbp_http_type = "*"
bmbp_rdbc = "*"
serde = "*"
