[package]
name = "rdf_boundary"
version = "0.1.0"
edition = "2021"
publish = false

[dependencies]
oxigraph = { version = "=0.5.11", default-features = false }
getrandom = "=0.3.4"
