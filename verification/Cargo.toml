[package]
name = "icemelter"
version = "0.1.0"
edition = "2021"
publish = false

[dependencies]
anyhow = "*"
clap = { version = "*", features = ["derive"] }
clap-verbosity-flag = "*"
log = "*"
num_cpus = "*"
once_cell = "*"
regex = "*"
reqwest = { version = "*", default-features = false, features = ["blocking", "json"] }
serde = { version = "*", features = ["derive"] }
serde_json = "*"
tempfile = "*"
tracing = "*"
tracing-subscriber = "*"
tree-sitter = "*"
tree-sitter-rust = "*"
treereduce = "*"
