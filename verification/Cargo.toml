[package]
name = "zod"
version = "0.1.0"
edition = "2021"

[dependencies]
anchor-lang = { version = "=0.24.2", features = ["init-if-needed"] }
anchor-spl = "=0.24.2"
borsh = "=0.9.3"
fixed = "=1.11.0"
zo-abi = { version = "=0.5.0", features = ["cpi"] }
