[package]
name = "space_traders_rust"
version = "0.1.0"
edition = "2021"
publish = false

[dependencies]
app_dirs2 = "2"
clap = { version = "4", features = ["derive"] }
clap-markdown = "0.1"
reqwest = { version = "0.11", features = ["json"] }
serde = { version = "1", features = ["derive"] }
serde_json = "1"
tokio = { version = "1", features = ["macros", "rt-multi-thread"] }
