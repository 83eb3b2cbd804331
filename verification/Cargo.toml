[package]
name = "quart"
version = "0.1.0"
edition = "2021"
publish = false

[dependencies]
rand = "0.7"
itertools = "*"
log = "0.4"
flexi_logger = "*"
termion = "*"
actix-web = "*"
actix-files = "*"
actix-rt = "*"
listenfd = "*"
futures = "*"
