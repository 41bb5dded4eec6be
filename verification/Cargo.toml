[package]
name = "invoice_intake"
version = "0.1.0"
edition = "2021"
publish = false

[dependencies]
regex = "=1.13.1"
rusqlite = { version = "=0.40.2", features = ["bundled"] }
dotenv = "=0.15.0"
pdf-extract = "=0.12.1"
rfd = { version = "=0.17.2", default-features = false, features = ["xdg-portal"] }
slint = { version = "=1.18.1", default-features = false, features = ["std", "compat-1-2"] }
tempfile = "=3.27.0"
