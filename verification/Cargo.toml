[package]
name = "mrt"
version = "0.1.0"
edition = "2021"
publish = false

[dependencies]
anyhow = "*"
blake3 = { version = "*", features = ["rayon"] }
clap = { version = "*", features = ["derive"] }
clap_complete = "*"
console = "*"
glob = "*"
hex = "*"
ignore = "*"
indicatif = "*"
log = "*"
memmap2 = "*"
serde = { version = "*", features = ["derive"] }
serde_json = "*"
tabled = "*"
toml = "*"
