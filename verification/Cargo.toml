[package]
name = "processing_instructions"
version = "0.1.0"
edition = "2021"
publish = false

[dependencies]
borsh = { version = "1", features = ["derive"] }
solana-program = "1.18"
thiserror = "1"
