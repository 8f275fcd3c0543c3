[package]
name = "nucleo_board"
version = "0.1.0"
edition = "2021"
publish = false

[dependencies]
embassy-stm32 = { version = "0.1.0", default-features = false, features = ["stm32f303re"] }

[dev-dependencies]
critical-section = { version = "1.1", features = ["std"] }
