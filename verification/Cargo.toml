[package]
name = "catdex"
version = "0.1.0"
edition = "2021"
publish = false

[dependencies]
actix-files = "0.6"
actix-multipart = "0.6"
actix-web = "4"
diesel = { version = "2", features = ["postgres", "r2d2"] }
handlebars = { version = "5", features = ["dir_source"] }
serde = { version = "1", features = ["derive"] }
