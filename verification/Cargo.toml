[package]
name = "leptos_declarative"
version = "0.1.0"
edition = "2021"
publish = false

[dependencies]
leptos = "0.4"
