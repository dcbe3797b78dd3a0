[package]
name = "trekkie"
version = "0.1.0"
edition = "2021"
publish = false

[dependencies]
actix-identity = "=0.7.1"
actix-multipart = "=0.6.2"
actix-session = { version = "=0.9.0", features = ["redis-actor-session"] }
actix-web = "=4.18.1"
chrono = "=0.4.45"
clap = { version = "=4.6.7", features = ["derive"] }
derive_more = "=0.99.20"
diesel = { version = "=2.3.14", features = ["postgres", "r2d2", "uuid", "chrono"] }
env_logger = "=0.11.11"
futures = "=0.3.34"
gpx = "=0.10.0"
log = "=0.4.34"
r2d2 = "=0.8.10"
rand = "=0.9.5"
serde = { version = "=1.0.229", features = ["derive"] }
tonic = "=0.12.3"
utoipa = { version = "=3.5.0", features = ["actix_extras", "uuid", "chrono"] }
utoipa-swagger-ui = { version = "=3.1.5", features = ["actix-web"] }
uuid = { version = "=1.29.0", features = ["v4", "serde"] }
