[package]
name = "any_dns"
version = "0.1.0"
edition = "2021"
publish = false

[dependencies]
ctrlc = "*"
dyn-clone = "*"
simple-dns = "*"
thiserror = "*"
