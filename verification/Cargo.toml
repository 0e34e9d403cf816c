[package]
name = "tabview"
version = "0.1.0"
edition = "2021"
publish = false

[dependencies]
clap = { version = "=4.6.7", features = ["derive"] }
pancurses = "=0.17.0"
polars = { version = "=0.41.3", default-features = false, features = ["lazy", "csv"] }
polars-sql = { version = "=0.41.3", default-features = false }
