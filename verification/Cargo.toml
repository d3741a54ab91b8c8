[package]
name = "cargo_dylib"
version = "0.1.0"
edition = "2021"
publish = false

[dependencies]
cargo_toml = "*"
clap = { version = "*", features = ["derive"] }
human-panic = "*"
locate-cargo-manifest = "*"
rayon = "*"
thiserror = "*"
