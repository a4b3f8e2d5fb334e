[package]
name = "rust_basic"
version = "0.1.0"
edition = "2021"
publish = false

[dependencies]
bcrypt = "*"
chrono = { version = "*", features = ["serde"] }
diesel = { version = "*", features = ["postgres", "r2d2", "uuid", "chrono"] }
dotenvy = "*"
envy = "*"
once_cell = "*"
rocket = { version = "*", features = ["json"] }
serde = { version = "*", features = ["derive"] }
uuid = { version = "*", features = ["v4", "serde"] }
validator = "*"
