[package]
name = "wrap_components_with_observer"
version = "0.1.0"
edition = "2021"
publish = false

[dependencies]
globset = "*"
serde = { version = "*", features = ["derive"] }
serde_json = "*"
swc_ecma_ast = "*"
swc_ecma_visit = "*"
