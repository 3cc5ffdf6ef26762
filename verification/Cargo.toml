[package]
name = "arc_pool"
version = "0.1.0"
edition = "2021"
publish = false

[dependencies]
anchor-lang = "0.25.0"
anchor-spl = "0.25.0"
mpl-token-metadata = { version = "1.3", features = ["no-entrypoint"] }
spl-associated-token-account = { version = "1.0", features = ["no-entrypoint"] }
spl-token = { version = "3.3", features = ["no-entrypoint"] }
