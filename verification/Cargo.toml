[package]
name = "todo_list"
version = "0.1.0"
edition = "2021"
publish = false

[dependencies]
chrono = { version = "=0.4.45", features = ["serde"] }
chrono-humanize = "=0.2.3"
clap = { version = "=4.6.7", features = ["derive"] }
csv = "=1.4.0"
fs2 = "=0.4.3"

[dev-dependencies]
serde = "1"
