[package]
name = "quinn_hyphae"
version = "0.1.0"
edition = "2021"
publish = false

[dependencies]
rand_core = { version = "0.6", features = ["getrandom"] }
quinn = { version = "0.11", default-features = false, features = ["runtime-tokio"] }
tokio = { version = "1", features = ["time", "rt", "macros"] }
hyphae-handshake = "=0.1.0-beta.0"

[dev-dependencies]
quinn-proto = { version = "0.11", default-features = false }
