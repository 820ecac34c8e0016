[package]
name = "flyg"
version = "0.1.0"
edition = "2021"
publish = false

[dependencies]
bcrypt = "=0.19.3"
chrono = "=0.4.45"
diesel = { version = "=2.3.14", features = ["postgres", "chrono"] }
diesel_migrations = "=2.3.2"
fern = "=0.6.2"
jsonwebtoken = "=7.2.0"
log = "=0.4.34"
rocket = { version = "=0.5.2", features = ["json"] }
rocket_sync_db_pools = { version = "=0.1.0", features = ["diesel_postgres_pool"] }
serde = { version = "=1.0.229", features = ["derive"] }
serde_json = "=1.0.154"
toml = "=0.5.11"
utoipa = { version = "=5.5.0", features = ["rocket_extras"] }
utoipa-swagger-ui = { version = "=9.0.2", features = ["rocket", "vendored"] }
