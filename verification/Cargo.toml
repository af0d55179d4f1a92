[package]
name = "topaz"
version = "0.1.0"
edition = "2021"
publish = false

[dependencies]
home = "0.5"
hotwatch = "0.4"
tokio = { version = "1", features = ["macros", "process", "rt-multi-thread", "signal", "sync"] }
