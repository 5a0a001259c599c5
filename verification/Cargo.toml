[package]
name = "splint"
version = "0.1.0"
edition = "2021"
publish = false

[dependencies]
glob = "*"
jsonschema-valid = "*"
lincolns = "*"
serde_json = "*"
colored = "*"
reqwest = { version = "*", default-features = false, features = ["blocking", "json"] }
serde_yaml = "*"
structopt = "*"
serde = "*"
