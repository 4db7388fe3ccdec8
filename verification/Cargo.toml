[package]
name = "diesel_cte_ext"
version = "0.1.0"
edition = "2021"
publish = false

[dependencies]
diesel = { version = "*", features = ["sqlite", "postgres_backend"] }
diesel-async = { version = "*", features = ["sqlite", "postgres"] }
libsqlite3-sys = { version = "*", features = ["bundled"] }
