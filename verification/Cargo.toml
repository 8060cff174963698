[package]
name = "dnguyen_blog"
version = "0.1.0"
edition = "2021"
publish = false

[dependencies]
bcrypt = "*"
chrono = "*"
uuid = { version = "*", features = ["v4"] }
serde = { version = "*", features = ["derive"] }
serde_json = "*"
tokio = { version = "*", features = ["full"] }
tokio-postgres = { version = "*", features = ["with-chrono-0_4", "with-uuid-1", "with-serde_json-1"] }
dotenv = "*"
rocket = { version = "*", features = ["json", "secrets"] }
rocket_dyn_templates = { version = "*", features = ["handlebars"] }
