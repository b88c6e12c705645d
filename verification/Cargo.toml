[package]
name = "spice_components"
version = "0.1.0"
edition = "2021"
publish = false

[dependencies]
regex = "=1.13.1"
arrow = { version = "=51.0.0", default-features = false }
datafusion = { version = "=38.0.0", default-features = false }
object_store = { version = "=0.9.1", default-features = false }
futures = "=0.3.34"
async-stream = "=0.3.6"
async-trait = "=0.1.92"
chrono = { version = "=0.4.38", default-features = false }
