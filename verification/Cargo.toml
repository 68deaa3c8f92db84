[package]
name = "docker_ps"
version = "0.1.0"
edition = "2021"
publish = false

[dependencies]
chrono = "0.4"
chrono-humanize = "0.2"
clap = { version = "4", features = ["derive"] }
dotenvy = "0.15"
reqwest = { version = "0.12", default-features = false, features = ["json"] }
serde = { version = "1", features = ["derive"] }
tabled = "*"
tokio = { version = "1", features = ["macros", "rt-multi-thread"] }
