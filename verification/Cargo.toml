[package]
name = "county_lookup"
version = "0.1.0"
edition = "2021"
publish = false

[dependencies]
geo = { version = "*", default-features = false }
rayon = "1"
serde = { version = "1", features = ["derive"] }
serde_json = "1"
csv = "1"
