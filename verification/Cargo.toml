[package]
name = "github_heatmap"
version = "0.1.0"
edition = "2021"
publish = false

[dependencies]
scraper = "*"
colored = "*"
clap = { version = "*", features = ["derive"] }
reqwest = { version = "*", default-features = false, features = ["blocking"] }
thiserror = "*"
