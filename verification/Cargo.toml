[package]
name = "parquet_ui"
version = "0.1.0"
edition = "2021"
publish = false

[dependencies]
ahash = "*"
datafusion = { version = "*", default-features = false, features = ["parquet"] }
iced = { version = "*", default-features = false, features = ["tokio", "tiny-skia"] }
tokio = { version = "*", features = ["time", "rt"] }
tracing = "*"
tracing-subscriber = { version = "*", features = ["env-filter", "fmt"] }
