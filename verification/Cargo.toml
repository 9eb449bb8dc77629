[package]
name = "get_nhk_radio_url"
version = "0.1.0"
edition = "2021"
publish = false

[dependencies]
chrono = "0.4"
clap = { version = "4", features = ["derive"] }
clap_complete = "4"
dirs = "5"
quick-xml = "0.37"
reqwest = { version = "0.12", features = ["blocking"] }
