[package]
name = "sigvim"
version = "0.1.0"
edition = "2021"
publish = false

[dependencies]
async-trait = "0.1"
directories = "*"
futures-util = { version = "0.3", default-features = false, features = ["std"] }
gtk4 = { version = "*", features = ["v4_14"] }
libadwaita = { version = "*", features = ["v1_5"] }
notify = "*"
notify-rust = "4"
qrcode = { version = "*", default-features = false }
serde = { version = "1", features = ["derive"] }
sqlx = { version = "0.8", default-features = false, features = ["runtime-tokio", "sqlite", "migrate", "macros"] }
thiserror = "*"
tokio = { version = "1", features = ["rt-multi-thread", "macros", "sync", "time", "fs"] }
toml = "*"
tracing = "0.1"
tracing-subscriber = { version = "0.3", features = ["env-filter"] }
zbus = "*"
