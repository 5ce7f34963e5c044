[package]
name = "masmlint"
version = "0.1.0"
edition = "2021"
publish = false

[dependencies]
clap = { version = "=4.6.7", features = ["derive"] }
miden-assembly = { version = "=0.19.1", features = ["testing"] }
miden-assembly-syntax = "=0.19.1"
miden-core = "=0.19.1"
miden-miette = "=8.0.0"
thiserror = "=2.0.21"
