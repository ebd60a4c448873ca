[package]
name = "idp"
version = "0.1.0"
edition = "2021"
publish = false

[dependencies]
uuid = { version = "=1.29.0", features = ["v4", "serde"] }
time = { version = "=0.3.55", features = ["formatting", "parsing", "serde"] }
rand = "=0.10.3"
base64 = "=0.22.1"
hmac = "=0.13.0"
sha2 = "=0.11.1"
hex = "=0.4.3"
argon2 = "=0.6.0"
jsonwebtoken = "=9.3.1"
serde_json = { version = "=1.0.154", features = ["raw_value"] }
serde = { version = "=1.0.229", features = ["derive"] }
tracing = "=0.1.44"
tracing-subscriber = { version = "=0.3.23", features = ["env-filter", "json"] }
tracing-appender = "=0.2.5"
axum = "=0.8.9"
tokio = { version = "=1.54.1", features = ["full"] }
tower = "=0.5.3"
tower-http = { version = "=0.7.1", features = ["trace", "request-id", "sensitive-headers"] }
tower-cookies = "=0.11.0"
http = "=1.5.0"
diesel = { version = "=2.3.14", features = ["postgres_backend", "uuid", "time"] }
diesel-async = { version = "=0.9.2", features = ["postgres", "bb8"] }
diesel-derive-enum = { version = "=2.1.0", features = ["postgres"] }
aide = { version = "=0.15.1", features = ["axum", "axum-json", "axum-query", "scalar"] }
schemars = { version = "=0.9.0", features = ["uuid1"] }
secrecy = "=0.10.3"
async-trait = "=0.1.92"
thiserror = "=2.0.21"
anyhow = "=1.0.104"
dotenvy = "=0.15.7"
