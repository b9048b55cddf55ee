[package]
name = "repossess"
version = "0.1.0"
edition = "2021"
publish = false

[dependencies]
url = "2"
reqwest = { version = "0.11", features = ["blocking"] }
structopt = "0.3"
