[package]
name = "napewno"
version = "0.1.0"
edition = "2021"
publish = false

[dependencies]
dotenv = "0.15"
rand = "0.8"
time = { version = "0.3", features = ["formatting", "parsing"] }
tokio = { version = "1", features = ["macros", "rt-multi-thread"] }
twitter-v2 = "*"
