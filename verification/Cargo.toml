[package]
name = "octopt"
version = "0.1.0"
edition = "2021"
publish = false

[dependencies]
css-color-parser2 = "*"
serde = { version = "1", features = ["derive"] }
serde_ini = "*"
serde_json = { version = "1", features = ["preserve_order"] }
serde_repr = "*"
serde_with = "*"
