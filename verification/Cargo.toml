[package]
name = "git_evtag"
version = "0.1.0"
edition = "2021"
publish = false

[dependencies]
git2 = { version = "*", default-features = false }
hex = "*"
openssl = "*"
structopt = "*"
