[package]
name = "dewedat"
version = "0.1.0"
edition = "2021"
publish = false

[dependencies]
async-fs = "*"
async-io = "*"
colour = "*"
futures = "*"
glob = "*"
rayon = "*"
