[package]
name = "oxidize_mail"
version = "0.1.0"
edition = "2021"
publish = false

[dependencies]
mail-parser = "*"
serde = { version = "1", features = ["derive"] }
toml = "*"
dirs = "*"
thiserror = "*"
log = "0.4"
env_logger = "*"
fake = "*"
gtk4 = "*"
webkit6 = "*"
glib = "*"
rusqlite = "*"
refinery = { version = "*", features = ["rusqlite"] }
