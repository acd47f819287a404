[package]
name = "import_filter"
version = "0.1.0"
edition = "2021"
publish = false

[dependencies]
regex = "*"
serde_json = "*"
swc_core = { version = "*", features = ["common", "ecma_ast", "ecma_visit"] }
