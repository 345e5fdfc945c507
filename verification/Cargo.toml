[package]
name = "r2d2_couchdb"
version = "0.1.0"
edition = "2021"
publish = false

[dependencies]
chill = "=0.3.0"
r2d2 = "=0.8.10"
url = "=1.7.2"
