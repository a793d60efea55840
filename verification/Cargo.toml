[package]
name = "gitlab_branch_gen"
version = "0.1.0"
edition = "2021"
publish = false

[dependencies]
anyhow = "1"
clap = { version = "4", features = ["derive"] }
os_path = "*"
reqwest = { version = "0.12", features = ["json"] }
serde = { version = "1", features = ["derive"] }
serde_yml = "*"
shellexpand = "3"
tokio = { version = "1", features = ["macros", "rt-multi-thread"] }
urlencoding = "2"
