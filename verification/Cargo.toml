[package]
name = "bus_events"
version = "0.1.0"
edition = "2021"
publish = false

[dependencies]
zvariant = "*"
serde = { version = "*", features = ["derive"] }
