[package]
name = "pokeinfo"
version = "0.1.0"
edition = "2021"
publish = false

[dependencies]
actix-web = { version = "=4.15.0", default-features = false, features = ["macros"] }
reqwest = { version = "=0.13.5", default-features = false, features = ["json"] }
reqwest-middleware = { version = "=0.5.2", features = ["query"] }
reqwest-tracing = "=0.7.1"
serde = { version = "=1.0.229", features = ["derive"] }
structopt = "=0.3.26"
tracing = "=0.1.44"
tracing-subscriber = { version = "=0.3.23", features = ["env-filter"] }
