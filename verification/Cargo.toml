[package]
name = "technopolis"
version = "0.1.0"
edition = "2021"
publish = false

[dependencies]
docopt = "*"
dotenv = "*"
postgres = "*"
serde = { version = "*", features = ["derive"] }
