[package]
name = "sam3x8e-hal"
version = "0.1.0"
edition = "2021"
publish = false

[dependencies]
Inflector = { version = "0.11", default-features = false }
cortex-m = "0.7"
embedded-hal = { version = "0.2", features = ["unproven"] }
nb = "0.1"
void = { version = "1", default-features = false }
proc-macro2 = "1"
syn = { version = "1", features = ["full"] }
