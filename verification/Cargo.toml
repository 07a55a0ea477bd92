[package]
name = "script_runner"
version = "0.1.0"
edition = "2021"
publish = false

[dependencies]
v8 = "130"
bcrypt = "0.15"
axum = { version = "0.7", features = ["macros"] }
serde = { version = "1", features = ["derive"] }
sqlx = { version = "0.8", default-features = false, features = ["sqlite", "runtime-tokio", "derive"] }
tokio = { version = "1", features = ["full"] }
tower-http = { version = "0.5", features = ["fs"] }
dotenv = "0.15"
