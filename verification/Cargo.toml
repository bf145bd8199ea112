[package]
name = "diesel_cli"
version = "0.1.0"
edition = "2021"
publish = false

[dependencies]
barrel = { version = "=0.7.0", features = ["diesel", "pg"] }
chrono = "=0.4.45"
clap = "=2.34.0"
diesel = { version = "=1.4.8", default-features = false, features = ["postgres", "sqlite"] }
dotenv = "=0.15.0"
migrations_internals = "=1.4.1"
serde = { version = "=1.0.229", features = ["derive"] }
toml = "=0.5.11"

[dev-dependencies]
tempfile = "=3.27.0"
