[package]
name = "home_projects"
version = "0.1.0"
edition = "2021"
publish = false

[dependencies]
sea-orm = { version = "=0.6.0", default-features = false, features = ["macros", "mock", "with-chrono", "with-uuid", "with-json"] }
axum = "=0.4.8"
tokio = { version = "=1.54.1", features = ["macros", "rt-multi-thread"] }
tower = "=0.4.13"
tower-http = { version = "=0.2.5", features = ["add-extension", "trace", "cors"] }
serde = { version = "=1.0.229", features = ["derive"] }
serde_derive = "=1.0.229"
serde_json = "=1.0.154"
serde_path_to_error = "=0.1.20"
serde-aux = "=3.1.0"
config = { version = "=0.12.0", default-features = false, features = ["yaml"] }
validator = { version = "=0.14.0", features = ["derive"] }
argon2 = "=0.3.4"
rand = "=0.8.8"
chrono = "=0.4.45"
anyhow = "=1.0.104"
bytes = "=1.12.1"
tracing = "=0.1.44"
dotenv = "=0.15.0"
