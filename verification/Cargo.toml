[package]
name = "densityfn"
version = "0.1.0"
edition = "2021"
publish = false

[dependencies]
serde = { version = "1", features = ["derive"] }
serde_json = "1"
serde_path_to_error = "*"
zip = "*"
proc-macro2 = "*"
quote = "*"
bevy_math = "*"
