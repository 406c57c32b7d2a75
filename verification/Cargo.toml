[package]
name = "midas"
version = "0.1.0"
edition = "2021"
publish = false

[dependencies]
cms = "*"
evtx = "*"
serde_json = "*"
