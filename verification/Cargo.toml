[package]
name = "product_service"
version = "0.1.0"
edition = "2021"
publish = false

[dependencies]
actix-rt = "*"
actix-web = { version = "*", default-features = false, features = ["macros"] }
diesel = { version = "*", features = ["postgres", "r2d2"] }
dotenv = "*"
serde = { version = "*", features = ["derive"] }
serde_json = "*"
