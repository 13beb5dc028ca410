[package]
name = "bounded_collections"
version = "0.1.0"
edition = "2021"
publish = false

[dependencies]
parity-scale-codec = { version = "3.7", features = ["derive", "max-encoded-len"] }
jam-codec = { version = "*", features = ["derive", "max-encoded-len"] }
scale-info = { version = "2", features = ["derive"] }
schemars = { version = "*" }
serde = { version = "1", features = ["derive", "alloc"] }

[dev-dependencies]
serde_json = { version = "1" }
