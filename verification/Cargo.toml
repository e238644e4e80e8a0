[package]
name = "duckhub"
version = "0.1.0"
edition = "2021"
publish = false

[dependencies]
num_cpus = "=1.17.0"
validator = "=0.21.0"
md5 = "=0.7.0"
regex = "=1.13.1"
rand = "=0.8.8"
serde = { version = "=1.0.229", features = ["derive"] }
serde_json = "=1.0.154"
chrono = "=0.4.45"
uuid = { version = "=1.29.0", features = ["v4"] }
actix-web = "=4.18.1"
jsonwebtoken = "=9.3.1"
config = { version = "=0.14.1", default-features = false, features = ["json"] }
actix-cors = "0.7"
prometheus = { version = "0.13", default-features = false }
sysinfo = { version = "0.29", default-features = false }
