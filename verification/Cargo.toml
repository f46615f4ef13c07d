[package]
name = "garthen"
version = "0.1.0"
edition = "2021"
publish = false

[dependencies]
actix = "=0.13.5"
actix-web = { version = "=4.18.1", default-features = false, features = ["macros", "ws"] }
actix-web-actors = "=4.3.1"
argon2 = "=0.5.3"
diesel = { version = "=2.3.14", features = ["postgres", "r2d2"] }
dotenv = "=0.15.0"
eetf = "=0.8.0"
futures = "=0.3.34"
lapin = { version = "=2.5.5", default-features = false }
log = "=0.4.34"
nanoid = "=0.4.0"
num-bigint = "=0.4.8"
num-traits = "=0.2.19"
reqwest = { version = "=0.11.27", default-features = false, features = ["json"] }
rs-snowflake = "=0.6.0"
rustdns = "=0.4.0"
serde = { version = "=1.0.229", features = ["derive"] }
serde_json = "=1.0.154"
tokio = { version = "=1.54.1", features = ["rt-multi-thread"] }
