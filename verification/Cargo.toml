[package]
name = "tictactoe"
version = "0.1.0"
edition = "2021"
publish = false

[dependencies]
clap = { version = "4", features = ["derive"] }
iroh = "*"
rand = "*"
tokio = { version = "1", features = ["macros", "rt-multi-thread"] }
