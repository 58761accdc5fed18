[package]
name = "oxidescanner"
version = "0.1.0"
edition = "2021"
publish = false

[dependencies]
atty = "0.2"
colored = "*"
governor = { version = "*", default-features = false, features = ["std"] }
inquire = "*"
roxmltree = "*"
serde = { version = "1", features = ["derive"] }
serde_json = "1"
thiserror = "*"
tokio = { version = "1", features = ["macros", "net", "process", "rt-multi-thread", "sync", "time"] }
