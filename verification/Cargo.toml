[package]
name = "version_pick"
version = "0.1.0"
edition = "2021"
publish = false

[dependencies]
fail = { version = "*", features = ["failpoints"] }
git2 = "*"

[dev-dependencies]
mktemp = "*"
