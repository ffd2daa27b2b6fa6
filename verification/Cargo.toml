[package]
name = "frame_reader"
version = "0.1.0"
edition = "2021"
publish = false

[dependencies]
calamine = { version = "=0.36.1", features = ["dates"] }
polars = { version = "=0.55.2", default-features = false, features = ["csv", "temporal", "dtype-date", "dtype-u8", "dtype-i8"] }
chrono = "=0.4.45"

[dev-dependencies]
