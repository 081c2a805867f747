[package]
name = "time_server_utils"
version = "0.1.0"
edition = "2021"
publish = false

[dependencies]
url = "*"
clap = { version = "*", features = ["derive"] }
clap-markdown = "*"
nippy = "*"
reqwest = { version = "*", default-features = false, features = ["json"] }
serde = { version = "*", features = ["derive"] }
serde_json = "*"
tokio = { version = "*", features = ["macros", "rt-multi-thread"] }
