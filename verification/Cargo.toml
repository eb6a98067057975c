[package]
name = "lenso_email_smtp_plugin"
version = "0.1.0"
edition = "2021"
publish = false

[dependencies]
chrono = "=0.4.45"
hex = "=0.4.3"
lenso = "=0.5.1"
lenso-capability-email-dispatch = "=0.1.1"
lenso-capability-secrets = "=0.1.3"
lenso-kernel = "=0.2.3"
lenso-native-adapter = "=0.3.1"
lenso-postgres-kit = "=0.1.1"
lettre = { version = "=0.11.23", default-features = false, features = ["builder", "hostname", "smtp-transport", "tokio1", "tokio1-rustls", "ring", "webpki-roots"] }
serde = { version = "=1.0.229", features = ["derive"] }
serde_json = "=1.0.154"
sha2 = "=0.11.1"
sqlx = { version = "=0.9.0", default-features = false, features = ["runtime-tokio", "postgres", "chrono", "json", "macros"] }
thiserror = "=2.0.21"
tokio = { version = "=1.54.1", features = ["time", "rt", "macros"] }
zeroize = "=1.9.1"
