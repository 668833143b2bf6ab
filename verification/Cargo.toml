[package]
name = "teaching_eval"
version = "0.1.0"
edition = "2021"
publish = false

[dependencies]
base64 = "=0.22.1"
md-5 = "=0.10.6"
reqwest = { version = "=0.12.28", features = ["json", "multipart"] }
rpassword = "=7.5.4"
serde_json = "=1.0.154"
tokio = { version = "=1.54.1", features = ["macros", "rt-multi-thread"] }

[dev-dependencies]
regex = "1"
