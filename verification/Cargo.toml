[package]
name = "batch_coalescer"
version = "0.1.0"
edition = "2021"
publish = false

[dependencies]
actix-web = { version = "=4.18.1", default-features = false, features = ["macros"] }
dotenvy = "=0.15.7"
log = "=0.4.34"
log4rs = { version = "=1.4.0", default-features = false, features = ["console_appender", "pattern_encoder"] }
serde = { version = "=1.0.229", features = ["derive"] }
takecell = "<0.1.2"
teloxide = { version = "=0.17.0", default-features = false, features = ["rustls"] }
tokio = { version = "=1.54.1", features = ["macros", "rt-multi-thread", "sync", "time"] }
