[package]
name = "rockpass"
version = "0.1.0"
edition = "2021"
publish = false

[dependencies]
bcrypt = "=0.19.3"
chrono = "=0.4.45"
hmac = "=0.12.1"
jwt = "=0.16.0"
sha2 = "=0.10.9"
uuid = { version = "=1.27.0", features = ["v4"] }
