[package]
name = "finish_it"
version = "0.1.0"
edition = "2021"
publish = false

[dependencies]
chrono = { version = "0.4", features = ["serde"] }
crossterm = "0.25"
rusqlite = { version = "0.29", features = ["bundled", "chrono"] }
serde = { version = "1", features = ["derive"] }
tui = "0.19"
tui-textarea = "0.2"
