[package]
name = "fast_scp"
version = "0.1.0"
edition = "2021"
publish = false

[dependencies]
clap = { version = "4", features = ["derive"] }
dirs-next = "2"
futures = "0.3"
indicatif = "0.17"
ssh2 = "0.9"
tokio = { version = "1", features = ["macros", "rt-multi-thread"] }
